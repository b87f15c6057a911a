//! Reading the account of the signed-in user.
use vstd::prelude::*;
use crate::domain::user;
use crate::time::Timestamp;

pub mod repository;

verus! {

pub struct Request {
    pub user_id: i64,
}

pub struct Response {
    pub id: i64,
    pub username: String,
    pub enabled: bool,
    pub created_at: Timestamp,
    pub roles: Vec<String>,
}

#[derive(Debug)]
pub enum Error {
    RepositoryError(repository::Error),
}

pub enum Action {
    FindUserById { id: i64 },
    Finish(Result<Response, Error>),
}

pub enum Event {
    UserFound(Result<(user::Model, Vec<String>), repository::Error>),
}

#[derive(Debug, Clone, Copy, PartialEq, Eq, Structural)]
pub enum Phase {
    FindingUser,
    Finished,
}

pub struct Handler {
    pub phase: Phase,
}

impl Handler {
    pub open spec fn accepts_spec(&self, event: &Event) -> bool {
        self.phase == Phase::FindingUser
    }

    pub fn accepts(&self, event: &Event) -> (r: bool)
        ensures
            r == self.accepts_spec(event),
    {
        self.phase == Phase::FindingUser
    }

    pub fn start(request: Request) -> (r: (Handler, Action))
        ensures
            r.0.phase == Phase::FindingUser,
            r.1 == (Action::FindUserById { id: request.user_id }),
    {
        (Handler { phase: Phase::FindingUser }, Action::FindUserById { id: request.user_id })
    }

    pub fn on_event(&mut self, event: Event) -> (action: Action)
        requires
            old(self).accepts_spec(&event),
        ensures
            final(self).phase == Phase::Finished,
            match event {
                Event::UserFound(Ok((u, roles))) => action == Action::Finish(Ok(Response {
                    id: u.id,
                    username: u.username,
                    enabled: u.enabled,
                    created_at: u.created_at,
                    roles,
                })),
                Event::UserFound(Err(e)) => action == Action::Finish(Err(Error::RepositoryError(e))),
            },
    {
        self.phase = Phase::Finished;
        match event {
            Event::UserFound(Ok((u, roles))) => Action::Finish(Ok(Response {
                id: u.id,
                username: u.username,
                enabled: u.enabled,
                created_at: u.created_at,
                roles,
            })),
            Event::UserFound(Err(e)) => Action::Finish(Err(Error::RepositoryError(e))),
        }
    }
}

} // verus!
