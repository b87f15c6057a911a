//! Changing a normal user's name, password or enabled flag. The request is
//! checked first; a new password is hashed before it is stored.
use vstd::prelude::*;
use crate::app_trait::password_hasher;
use crate::domain::user;

pub mod repository;
pub mod validation;

verus! {

/// Change some of the fields of a normal (non-admin) user.
pub struct Request<'a> {
    pub id: i64,
    pub username: Option<&'a str>,
    pub password: Option<&'a str>,
    pub enabled: Option<bool>,
}

#[derive(Debug)]
pub enum Error {
    ValidationError(validation::Error),
    HashingError(password_hasher::Error),
    RepositoryError(repository::Error),
}

pub enum Action<'a> {
    HashPassword { password: &'a str },
    UpdateNormalUser { id: i64, username: Option<&'a str>, password_hash: Option<String>, enabled: Option<bool> },
    Finish(Result<(), Error>),
}

pub enum Event {
    PasswordHashed(Result<String, password_hasher::Error>),
    Updated(Result<user::Model, repository::Error>),
}

#[derive(Debug, Clone, Copy, PartialEq, Eq, Structural)]
pub enum Phase {
    Hashing,
    Updating,
    Finished,
}

pub struct Handler<'a> {
    pub request: Request<'a>,
    pub phase: Phase,
}

impl<'a> Handler<'a> {
    pub open spec fn wf(&self) -> bool {
        &&& self.phase != Phase::Finished ==> validation::validation_outcome(
            validation::opt_view(self.request.username),
            validation::opt_view(self.request.password),
            self.request.enabled,
        ) is Ok
        &&& self.phase == Phase::Hashing ==> self.request.password is Some
    }

    pub open spec fn accepts_spec(&self, event: &Event) -> bool {
        match event {
            Event::PasswordHashed(_) => self.phase == Phase::Hashing,
            Event::Updated(_) => self.phase == Phase::Updating,
        }
    }

    pub fn accepts(&self, event: &Event) -> (r: bool)
        ensures
            r == self.accepts_spec(event),
    {
        match event {
            Event::PasswordHashed(_) => self.phase == Phase::Hashing,
            Event::Updated(_) => self.phase == Phase::Updating,
        }
    }

    /// An invalid request is refused before anything is hashed or stored;
    /// with no new password the update goes straight to the repository.
    pub fn start(request: Request<'a>) -> (r: (Handler<'a>, Action<'a>))
        ensures
            r.0.request == request,
            r.0.wf(),
            match validation::validation_outcome(
                validation::opt_view(request.username),
                validation::opt_view(request.password),
                request.enabled,
            ) {
                Err(e) => r.0.phase == Phase::Finished && r.1 == Action::Finish(Err(Error::ValidationError(e))),
                Ok(()) => match request.password {
                    Some(p) => r.0.phase == Phase::Hashing && r.1 == (Action::HashPassword { password: p }),
                    None => r.0.phase == Phase::Updating && r.1 == (Action::UpdateNormalUser {
                        id: request.id,
                        username: request.username,
                        password_hash: None,
                        enabled: request.enabled,
                    }),
                },
            },
    {
        if let Err(e) = validation::validate(&request) {
            return (Handler { request, phase: Phase::Finished }, Action::Finish(Err(Error::ValidationError(e))));
        }
        match request.password {
            Some(p) => (Handler { request, phase: Phase::Hashing }, Action::HashPassword { password: p }),
            None => {
                let action = Action::UpdateNormalUser {
                    id: request.id,
                    username: request.username,
                    password_hash: None,
                    enabled: request.enabled,
                };
                (Handler { request, phase: Phase::Updating }, action)
            },
        }
    }

    pub fn on_event(&mut self, event: Event) -> (action: Action<'a>)
        requires
            old(self).wf(),
            old(self).accepts_spec(&event),
        ensures
            final(self).wf(),
            final(self).request == old(self).request,
            match event {
                Event::PasswordHashed(Ok(hash)) => final(self).phase == Phase::Updating && action == (
                Action::UpdateNormalUser {
                    id: old(self).request.id,
                    username: old(self).request.username,
                    password_hash: Some(hash),
                    enabled: old(self).request.enabled,
                }),
                Event::PasswordHashed(Err(e)) => final(self).phase == Phase::Finished && action == Action::Finish(
                    Err(Error::HashingError(e)),
                ),
                Event::Updated(Ok(_)) => final(self).phase == Phase::Finished && action == Action::Finish(Ok(())),
                Event::Updated(Err(e)) => final(self).phase == Phase::Finished && action == Action::Finish(
                    Err(Error::RepositoryError(e)),
                ),
            },
            // Only a request that passed validation ever reaches the repository.
            action is UpdateNormalUser ==> validation::validation_outcome(
                validation::opt_view(final(self).request.username),
                validation::opt_view(final(self).request.password),
                final(self).request.enabled,
            ) is Ok,
    {
        match event {
            Event::PasswordHashed(Ok(hash)) => {
                self.phase = Phase::Updating;
                Action::UpdateNormalUser {
                    id: self.request.id,
                    username: self.request.username,
                    password_hash: Some(hash),
                    enabled: self.request.enabled,
                }
            },
            Event::PasswordHashed(Err(e)) => {
                self.phase = Phase::Finished;
                Action::Finish(Err(Error::HashingError(e)))
            },
            Event::Updated(Ok(_)) => {
                self.phase = Phase::Finished;
                Action::Finish(Ok(()))
            },
            Event::Updated(Err(e)) => {
                self.phase = Phase::Finished;
                Action::Finish(Err(Error::RepositoryError(e)))
            },
        }
    }
}

} // verus!
