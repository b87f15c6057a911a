//! Renaming a music list. The name is checked first; then, inside one
//! read-committed transaction, the handler checks that the requesting user
//! owns the list, renames it and commits.
use vstd::prelude::*;
use crate::app_trait::tx_context::{self, AccessMode, IsolationLevel};
use crate::domain::music_list;

pub mod repository;
pub mod validation;

verus! {

/// Rename a music list owned by the requesting user.
pub struct Request<'a> {
    pub id: i64,
    pub name: &'a str,
    pub user_id: i64,
}

#[derive(Debug)]
pub enum Error {
    ValidationError(validation::Error),
    RepositoryError(repository::Error),
    PermissionDenied,
    TxError(tx_context::Error),
}

pub enum Action<'a> {
    BeginTx { isolation_level: Option<IsolationLevel>, access_mode: Option<AccessMode> },
    GetMusicListOwnerId { music_list_id: i64 },
    UpdateMusicList { id: i64, name: &'a str },
    Commit,
    /// An open transaction that was not committed is dropped, which rolls
    /// it back.
    Finish(Result<(), Error>),
}

pub enum Event {
    TxBegun(Result<(), tx_context::Error>),
    OwnerId(Result<i64, repository::Error>),
    Updated(Result<music_list::Model, repository::Error>),
    Committed(Result<(), tx_context::Error>),
}

#[derive(Debug, Clone, Copy, PartialEq, Eq, Structural)]
pub enum Phase {
    BeginningTx,
    ReadingOwner,
    Updating,
    Committing,
    Finished,
}

pub struct Handler<'a> {
    pub request: Request<'a>,
    pub phase: Phase,
    pub owner_id: Ghost<Option<i64>>,
}

impl<'a> Handler<'a> {
    pub open spec fn wf(&self) -> bool {
        &&& self.phase != Phase::Finished ==> 0 < self.request.name@.len() <= validation::NAME_MAX_CHARS
        &&& (self.phase == Phase::Updating || self.phase == Phase::Committing) ==> self.owner_id@ == Some(
            self.request.user_id,
        )
    }

    pub open spec fn accepts_spec(&self, event: &Event) -> bool {
        match event {
            Event::TxBegun(_) => self.phase == Phase::BeginningTx,
            Event::OwnerId(_) => self.phase == Phase::ReadingOwner,
            Event::Updated(_) => self.phase == Phase::Updating,
            Event::Committed(_) => self.phase == Phase::Committing,
        }
    }

    pub fn accepts(&self, event: &Event) -> (r: bool)
        ensures
            r == self.accepts_spec(event),
    {
        match event {
            Event::TxBegun(_) => self.phase == Phase::BeginningTx,
            Event::OwnerId(_) => self.phase == Phase::ReadingOwner,
            Event::Updated(_) => self.phase == Phase::Updating,
            Event::Committed(_) => self.phase == Phase::Committing,
        }
    }

    /// An invalid name is refused before any transaction is opened.
    pub fn start(request: Request<'a>) -> (r: (Handler<'a>, Action<'a>))
        ensures
            r.0.request == request,
            r.0.wf(),
            match validation::validate_spec(request.name@) {
                Ok(()) => r.0.phase == Phase::BeginningTx && r.1 == (Action::BeginTx {
                    isolation_level: Some(IsolationLevel::ReadCommitted),
                    access_mode: None,
                }),
                Err(e) => r.0.phase == Phase::Finished && r.1 == Action::Finish(Err(Error::ValidationError(e))),
            },
    {
        match validation::validate(&request) {
            Err(e) => (
                Handler { request, phase: Phase::Finished, owner_id: Ghost(None) },
                Action::Finish(Err(Error::ValidationError(e))),
            ),
            Ok(()) => (
                Handler { request, phase: Phase::BeginningTx, owner_id: Ghost(None) },
                Action::BeginTx { isolation_level: Some(IsolationLevel::ReadCommitted), access_mode: None },
            ),
        }
    }

    pub fn on_event(&mut self, event: Event) -> (action: Action<'a>)
        requires
            old(self).wf(),
            old(self).accepts_spec(&event),
        ensures
            final(self).wf(),
            final(self).request == old(self).request,
            match event {
                Event::TxBegun(Ok(())) => final(self).phase == Phase::ReadingOwner && action == (
                Action::GetMusicListOwnerId { music_list_id: old(self).request.id }),
                Event::TxBegun(Err(e)) => final(self).phase == Phase::Finished && action == Action::Finish(
                    Err(Error::TxError(e)),
                ),
                Event::OwnerId(Err(e)) => final(self).phase == Phase::Finished && action == Action::Finish(
                    Err(Error::RepositoryError(e)),
                ),
                Event::OwnerId(Ok(owner)) => if owner == old(self).request.user_id {
                    final(self).phase == Phase::Updating && action == (Action::UpdateMusicList {
                        id: old(self).request.id,
                        name: old(self).request.name,
                    })
                } else {
                    final(self).phase == Phase::Finished && action == Action::Finish(Err(Error::PermissionDenied))
                },
                Event::Updated(Ok(_)) => final(self).phase == Phase::Committing && action == Action::Commit,
                Event::Updated(Err(e)) => final(self).phase == Phase::Finished && action == Action::Finish(
                    Err(Error::RepositoryError(e)),
                ),
                Event::Committed(Ok(())) => final(self).phase == Phase::Finished && action == Action::Finish(Ok(())),
                Event::Committed(Err(e)) => final(self).phase == Phase::Finished && action == Action::Finish(
                    Err(Error::TxError(e)),
                ),
            },
            // Only a list the requesting user owns is renamed, and only to a valid name.
            action is UpdateMusicList ==> final(self).owner_id@ == Some(final(self).request.user_id)
                && validation::validate_spec(final(self).request.name@) is Ok,
    {
        match event {
            Event::TxBegun(Ok(())) => {
                self.phase = Phase::ReadingOwner;
                Action::GetMusicListOwnerId { music_list_id: self.request.id }
            },
            Event::TxBegun(Err(e)) => {
                self.phase = Phase::Finished;
                Action::Finish(Err(Error::TxError(e)))
            },
            Event::OwnerId(Err(e)) => {
                self.phase = Phase::Finished;
                Action::Finish(Err(Error::RepositoryError(e)))
            },
            Event::OwnerId(Ok(owner)) => {
                self.owner_id = Ghost(Some(owner));
                if owner != self.request.user_id {
                    self.phase = Phase::Finished;
                    return Action::Finish(Err(Error::PermissionDenied));
                }
                self.phase = Phase::Updating;
                Action::UpdateMusicList { id: self.request.id, name: self.request.name }
            },
            Event::Updated(Ok(_)) => {
                self.phase = Phase::Committing;
                Action::Commit
            },
            Event::Updated(Err(e)) => {
                self.phase = Phase::Finished;
                Action::Finish(Err(Error::RepositoryError(e)))
            },
            Event::Committed(Ok(())) => {
                self.phase = Phase::Finished;
                Action::Finish(Ok(()))
            },
            Event::Committed(Err(e)) => {
                self.phase = Phase::Finished;
                Action::Finish(Err(Error::TxError(e)))
            },
        }
    }
}

} // verus!
