//! Setting a user's password from the console.
use vstd::prelude::*;
use crate::app_trait::password_hasher;

pub mod repository;

verus! {

pub struct Request {
    pub username: String,
    pub password: String,
}

#[derive(Debug)]
pub enum Error {
    RepositoryError(repository::Error),
    PasswordHasherError(password_hasher::Error),
    HadAdminError,
}

pub enum Action {
    HashPassword { password: String },
    /// Store the new hash; the user's security stamp is renewed with it.
    SetPasswordHash { username: String, password_hash: String },
    Finish(Result<(), Error>),
}

pub enum Event {
    PasswordHashed(Result<String, password_hasher::Error>),
    PasswordHashSet(Result<(), repository::Error>),
}

#[derive(Debug, Clone, Copy, PartialEq, Eq, Structural)]
pub enum Phase {
    Hashing,
    Storing,
    Finished,
}

pub struct Handler {
    pub username: String,
    pub phase: Phase,
}

impl Handler {
    pub open spec fn accepts_spec(&self, event: &Event) -> bool {
        match event {
            Event::PasswordHashed(_) => self.phase == Phase::Hashing,
            Event::PasswordHashSet(_) => self.phase == Phase::Storing,
        }
    }

    pub fn accepts(&self, event: &Event) -> (r: bool)
        ensures
            r == self.accepts_spec(event),
    {
        match event {
            Event::PasswordHashed(_) => self.phase == Phase::Hashing,
            Event::PasswordHashSet(_) => self.phase == Phase::Storing,
        }
    }

    pub fn start(request: Request) -> (r: (Handler, Action))
        ensures
            r.0.phase == Phase::Hashing,
            r.0.username == request.username,
            r.1 == (Action::HashPassword { password: request.password }),
    {
        (Handler { username: request.username, phase: Phase::Hashing }, Action::HashPassword { password: request.password })
    }

    pub fn on_event(&mut self, event: Event) -> (action: Action)
        requires
            old(self).accepts_spec(&event),
        ensures
            match event {
                Event::PasswordHashed(Ok(hash)) => final(self).phase == Phase::Storing && action == (
                Action::SetPasswordHash { username: old(self).username, password_hash: hash }),
                Event::PasswordHashed(Err(e)) => final(self).phase == Phase::Finished && action == Action::Finish(
                    Err(Error::PasswordHasherError(e)),
                ),
                Event::PasswordHashSet(Ok(())) => final(self).phase == Phase::Finished && action == Action::Finish(Ok(())),
                Event::PasswordHashSet(Err(e)) => final(self).phase == Phase::Finished && action == Action::Finish(
                    Err(Error::RepositoryError(e)),
                ),
            },
    {
        match event {
            Event::PasswordHashed(Ok(password_hash)) => {
                self.phase = Phase::Storing;
                let mut username = String::new();
                core::mem::swap(&mut username, &mut self.username);
                Action::SetPasswordHash { username, password_hash }
            },
            Event::PasswordHashed(Err(e)) => {
                self.phase = Phase::Finished;
                Action::Finish(Err(Error::PasswordHasherError(e)))
            },
            Event::PasswordHashSet(Ok(())) => {
                self.phase = Phase::Finished;
                Action::Finish(Ok(()))
            },
            Event::PasswordHashSet(Err(e)) => {
                self.phase = Phase::Finished;
                Action::Finish(Err(Error::RepositoryError(e)))
            },
        }
    }
}

} // verus!
