//! Creating an account: the password is hashed and the account stored
//! with the hash.
use vstd::prelude::*;
use crate::app_trait::password_hasher;
use crate::domain::user;

pub mod repository;

verus! {

pub struct Request {
    pub username: String,
    pub password: String,
}

pub struct Response {
    pub success: bool,
    pub message: Option<String>,
    pub id: i64,
}

#[derive(Debug)]
pub enum Error {
    HashingError(password_hasher::Error),
    RepositoryError(repository::Error),
}

pub enum Action {
    HashPassword { password: String },
    CreateUser { username: String, password_hash: String },
    Finish(Result<Response, Error>),
}

pub enum Event {
    PasswordHashed(Result<String, password_hasher::Error>),
    UserCreated(Result<user::Model, repository::Error>),
}

#[derive(Debug, Clone, Copy, PartialEq, Eq, Structural)]
pub enum Phase {
    Hashing,
    Creating,
    Finished,
}

pub struct Handler {
    pub username: String,
    pub phase: Phase,
}

impl Handler {
    pub open spec fn accepts_spec(&self, event: &Event) -> bool {
        match event {
            Event::PasswordHashed(_) => self.phase == Phase::Hashing,
            Event::UserCreated(_) => self.phase == Phase::Creating,
        }
    }

    pub fn accepts(&self, event: &Event) -> (r: bool)
        ensures
            r == self.accepts_spec(event),
    {
        match event {
            Event::PasswordHashed(_) => self.phase == Phase::Hashing,
            Event::UserCreated(_) => self.phase == Phase::Creating,
        }
    }

    pub fn start(request: Request) -> (r: (Handler, Action))
        ensures
            r.0.phase == Phase::Hashing,
            r.0.username == request.username,
            r.1 == (Action::HashPassword { password: request.password }),
    {
        (Handler { username: request.username, phase: Phase::Hashing }, Action::HashPassword { password: request.password })
    }

    pub fn on_event(&mut self, event: Event) -> (action: Action)
        requires
            old(self).accepts_spec(&event),
        ensures
            match event {
                Event::PasswordHashed(Ok(hash)) => final(self).phase == Phase::Creating && action == (
                Action::CreateUser { username: old(self).username, password_hash: hash }),
                Event::PasswordHashed(Err(e)) => final(self).phase == Phase::Finished && action == Action::Finish(
                    Err(Error::HashingError(e)),
                ),
                Event::UserCreated(Ok(u)) => final(self).phase == Phase::Finished && action == Action::Finish(
                    Ok(Response { success: true, message: None, id: u.id }),
                ),
                Event::UserCreated(Err(e)) => final(self).phase == Phase::Finished && action == Action::Finish(
                    Err(Error::RepositoryError(e)),
                ),
            },
    {
        match event {
            Event::PasswordHashed(Ok(password_hash)) => {
                self.phase = Phase::Creating;
                let mut username = String::new();
                core::mem::swap(&mut username, &mut self.username);
                Action::CreateUser { username, password_hash }
            },
            Event::PasswordHashed(Err(e)) => {
                self.phase = Phase::Finished;
                Action::Finish(Err(Error::HashingError(e)))
            },
            Event::UserCreated(Ok(u)) => {
                self.phase = Phase::Finished;
                Action::Finish(Ok(Response { success: true, message: None, id: u.id }))
            },
            Event::UserCreated(Err(e)) => {
                self.phase = Phase::Finished;
                Action::Finish(Err(Error::RepositoryError(e)))
            },
        }
    }
}

} // verus!
