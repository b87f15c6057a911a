//! Creating the first administrator account from the console. It is
//! refused once any account holds the admin role.
use vstd::prelude::*;
use crate::app_trait::password_hasher;
use crate::domain::user;

pub mod repository;

verus! {

pub struct Request {
    pub username: String,
    pub password: String,
}

#[derive(Debug)]
pub enum Error {
    RepositoryError(repository::Error),
    PasswordHasherError(password_hasher::Error),
    HadAdminError,
}

pub enum Action {
    IsNoAdmin,
    HashPassword { password: String },
    CreateAdmin { username: String, password_hash: String },
    Finish(Result<(), Error>),
}

pub enum Event {
    NoAdmin(Result<bool, repository::Error>),
    PasswordHashed(Result<String, password_hasher::Error>),
    AdminCreated(Result<user::Model, repository::Error>),
}

#[derive(Debug, Clone, Copy, PartialEq, Eq, Structural)]
pub enum Phase {
    CheckingAdmin,
    Hashing,
    Creating,
    Finished,
}

pub struct Handler {
    pub username: String,
    pub password: String,
    pub phase: Phase,
    /// Whether the repository reported that there is no admin yet.
    pub no_admin: Ghost<bool>,
}

impl Handler {
    pub open spec fn wf(&self) -> bool {
        (self.phase == Phase::Hashing || self.phase == Phase::Creating) ==> self.no_admin@
    }

    pub open spec fn accepts_spec(&self, event: &Event) -> bool {
        match event {
            Event::NoAdmin(_) => self.phase == Phase::CheckingAdmin,
            Event::PasswordHashed(_) => self.phase == Phase::Hashing,
            Event::AdminCreated(_) => self.phase == Phase::Creating,
        }
    }

    pub fn accepts(&self, event: &Event) -> (r: bool)
        ensures
            r == self.accepts_spec(event),
    {
        match event {
            Event::NoAdmin(_) => self.phase == Phase::CheckingAdmin,
            Event::PasswordHashed(_) => self.phase == Phase::Hashing,
            Event::AdminCreated(_) => self.phase == Phase::Creating,
        }
    }

    pub fn start(request: Request) -> (r: (Handler, Action))
        ensures
            r.0.username == request.username,
            r.0.password == request.password,
            r.0.phase == Phase::CheckingAdmin,
            r.0.wf(),
            r.1 == Action::IsNoAdmin,
    {
        (
            Handler { username: request.username, password: request.password, phase: Phase::CheckingAdmin, no_admin: Ghost(false) },
            Action::IsNoAdmin,
        )
    }

    pub fn on_event(&mut self, event: Event) -> (action: Action)
        requires
            old(self).wf(),
            old(self).accepts_spec(&event),
        ensures
            final(self).wf(),
            match event {
                Event::NoAdmin(Err(e)) => final(self).phase == Phase::Finished && action == Action::Finish(
                    Err(Error::RepositoryError(e)),
                ),
                Event::NoAdmin(Ok(no_admin)) => if no_admin {
                    final(self).phase == Phase::Hashing && action == (Action::HashPassword {
                        password: old(self).password,
                    }) && final(self).username == old(self).username
                } else {
                    final(self).phase == Phase::Finished && action == Action::Finish(Err(Error::HadAdminError))
                },
                Event::PasswordHashed(Ok(hash)) => final(self).phase == Phase::Creating && action == (
                Action::CreateAdmin { username: old(self).username, password_hash: hash }),
                Event::PasswordHashed(Err(e)) => final(self).phase == Phase::Finished && action == Action::Finish(
                    Err(Error::PasswordHasherError(e)),
                ),
                Event::AdminCreated(Ok(_)) => final(self).phase == Phase::Finished && action == Action::Finish(Ok(())),
                Event::AdminCreated(Err(e)) => final(self).phase == Phase::Finished && action == Action::Finish(
                    Err(Error::RepositoryError(e)),
                ),
            },
            // An admin is only created while there is none.
            action is CreateAdmin ==> final(self).no_admin@,
    {
        match event {
            Event::NoAdmin(Err(e)) => {
                self.phase = Phase::Finished;
                Action::Finish(Err(Error::RepositoryError(e)))
            },
            Event::NoAdmin(Ok(no_admin)) => {
                self.no_admin = Ghost(no_admin);
                if !no_admin {
                    self.phase = Phase::Finished;
                    return Action::Finish(Err(Error::HadAdminError));
                }
                self.phase = Phase::Hashing;
                let mut password = String::new();
                core::mem::swap(&mut password, &mut self.password);
                Action::HashPassword { password }
            },
            Event::PasswordHashed(Ok(password_hash)) => {
                self.phase = Phase::Creating;
                let mut username = String::new();
                core::mem::swap(&mut username, &mut self.username);
                Action::CreateAdmin { username, password_hash }
            },
            Event::PasswordHashed(Err(e)) => {
                self.phase = Phase::Finished;
                Action::Finish(Err(Error::PasswordHasherError(e)))
            },
            Event::AdminCreated(Ok(_)) => {
                self.phase = Phase::Finished;
                Action::Finish(Ok(()))
            },
            Event::AdminCreated(Err(e)) => {
                self.phase = Phase::Finished;
                Action::Finish(Err(Error::RepositoryError(e)))
            },
        }
    }
}

} // verus!
