//! Signing in: the handler looks the user up by name, refuses a disabled
//! account, has the password checked against the stored hash, and has a
//! token issued for the user's id, roles and security stamp.
use vstd::prelude::*;
use crate::app_trait::{jwt_manager, password_hasher};
use crate::domain::user;

pub mod repository;

verus! {

pub struct Request<'a> {
    pub username: &'a str,
    pub password: &'a str,
}

pub struct Response {
    pub token: Option<String>,
}

#[derive(Debug)]
pub enum Error {
    JwtError(jwt_manager::Error),
    RepositoryError(repository::Error),
    PasswordHasherError(password_hasher::Error),
    UserDisabled,
}

pub enum Action<'a> {
    FindUserByUsername { username: &'a str },
    VerifyPassword { password_input: &'a str, stored_hash_string: String },
    /// Issue a token; its expiry is set by the token issuer.
    CreateToken { claims: jwt_manager::Claims },
    Finish(Result<Response, Error>),
}

pub enum Event {
    UserFound(Result<(user::Model, Vec<String>), repository::Error>),
    PasswordVerified(Result<(), password_hasher::Error>),
    TokenCreated(Result<String, jwt_manager::Error>),
}

#[derive(Debug, Clone, Copy, PartialEq, Eq, Structural)]
pub enum Phase {
    FindingUser,
    VerifyingPassword,
    CreatingToken,
    Finished,
}

pub struct Handler<'a> {
    pub request: Request<'a>,
    pub phase: Phase,
    /// The account found, with its roles, once it is known.
    pub user_id: i64,
    pub roles: Vec<String>,
    pub security_stamp: u128,
    /// Whether the account found is enabled, and whether its password was
    /// accepted.
    pub user_enabled: Ghost<bool>,
    pub password_verified: Ghost<bool>,
}

impl<'a> Handler<'a> {
    pub open spec fn wf(&self) -> bool {
        &&& (self.phase == Phase::VerifyingPassword || self.phase == Phase::CreatingToken) ==> self.user_enabled@
        &&& self.phase == Phase::CreatingToken ==> self.password_verified@
    }

    pub open spec fn accepts_spec(&self, event: &Event) -> bool {
        match event {
            Event::UserFound(_) => self.phase == Phase::FindingUser,
            Event::PasswordVerified(_) => self.phase == Phase::VerifyingPassword,
            Event::TokenCreated(_) => self.phase == Phase::CreatingToken,
        }
    }

    pub fn accepts(&self, event: &Event) -> (r: bool)
        ensures
            r == self.accepts_spec(event),
    {
        match event {
            Event::UserFound(_) => self.phase == Phase::FindingUser,
            Event::PasswordVerified(_) => self.phase == Phase::VerifyingPassword,
            Event::TokenCreated(_) => self.phase == Phase::CreatingToken,
        }
    }

    pub fn start(request: Request<'a>) -> (r: (Handler<'a>, Action<'a>))
        ensures
            r.0.request == request,
            r.0.phase == Phase::FindingUser,
            r.0.wf(),
            r.1 == (Action::FindUserByUsername { username: request.username }),
    {
        let username = request.username;
        (
            Handler {
                request,
                phase: Phase::FindingUser,
                user_id: 0,
                roles: Vec::new(),
                security_stamp: 0,
                user_enabled: Ghost(false),
                password_verified: Ghost(false),
            },
            Action::FindUserByUsername { username },
        )
    }

    pub fn on_event(&mut self, event: Event) -> (action: Action<'a>)
        requires
            old(self).wf(),
            old(self).accepts_spec(&event),
        ensures
            final(self).wf(),
            final(self).request == old(self).request,
            match event {
                Event::UserFound(Err(e)) => final(self).phase == Phase::Finished && action == Action::Finish(
                    Err(Error::RepositoryError(e)),
                ),
                Event::UserFound(Ok((u, roles))) => if !u.enabled {
                    final(self).phase == Phase::Finished && action == Action::Finish(Err(Error::UserDisabled))
                } else {
                    final(self).phase == Phase::VerifyingPassword && action == (Action::VerifyPassword {
                        password_input: old(self).request.password,
                        stored_hash_string: u.password_hash,
                    }) && final(self).user_id == u.id && final(self).roles == roles
                        && final(self).security_stamp == u.security_stamp
                },
                Event::PasswordVerified(Err(e)) => final(self).phase == Phase::Finished && action
                    == Action::Finish(Err(Error::PasswordHasherError(e))),
                Event::PasswordVerified(Ok(())) => final(self).phase == Phase::CreatingToken && action == (
                Action::CreateToken {
                    claims: jwt_manager::Claims {
                        sub: old(self).user_id,
                        exp: 0,
                        roles: old(self).roles,
                        security_stamp: old(self).security_stamp,
                    },
                }),
                Event::TokenCreated(Err(e)) => final(self).phase == Phase::Finished && action == Action::Finish(
                    Err(Error::JwtError(e)),
                ),
                Event::TokenCreated(Ok(token)) => final(self).phase == Phase::Finished && action == Action::Finish(
                    Ok(Response { token: Some(token) }),
                ),
            },
            // A token is only issued for an enabled account whose password was accepted.
            action is CreateToken ==> final(self).user_enabled@ && final(self).password_verified@,
    {
        match event {
            Event::UserFound(Err(e)) => {
                self.phase = Phase::Finished;
                Action::Finish(Err(Error::RepositoryError(e)))
            },
            Event::UserFound(Ok((u, roles))) => {
                self.user_enabled = Ghost(u.enabled);
                if !u.enabled {
                    self.phase = Phase::Finished;
                    return Action::Finish(Err(Error::UserDisabled));
                }
                self.user_id = u.id;
                self.roles = roles;
                self.security_stamp = u.security_stamp;
                self.phase = Phase::VerifyingPassword;
                Action::VerifyPassword { password_input: self.request.password, stored_hash_string: u.password_hash }
            },
            Event::PasswordVerified(Err(e)) => {
                self.phase = Phase::Finished;
                Action::Finish(Err(Error::PasswordHasherError(e)))
            },
            Event::PasswordVerified(Ok(())) => {
                self.password_verified = Ghost(true);
                self.phase = Phase::CreatingToken;
                let mut roles: Vec<String> = Vec::new();
                core::mem::swap(&mut roles, &mut self.roles);
                let claims = jwt_manager::Claims {
                    sub: self.user_id,
                    exp: 0,
                    roles,
                    security_stamp: self.security_stamp,
                };
                Action::CreateToken { claims }
            },
            Event::TokenCreated(Err(e)) => {
                self.phase = Phase::Finished;
                Action::Finish(Err(Error::JwtError(e)))
            },
            Event::TokenCreated(Ok(token)) => {
                self.phase = Phase::Finished;
                Action::Finish(Ok(Response { token: Some(token) }))
            },
        }
    }
}

} // verus!
