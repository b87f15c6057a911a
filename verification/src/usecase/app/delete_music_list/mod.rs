//! Deleting a music list. Inside one read-committed transaction the
//! handler checks that the requesting user owns the list, deletes it and
//! commits.
use vstd::prelude::*;
use crate::app_trait::tx_context::{self, AccessMode, IsolationLevel};

pub mod repository;

verus! {

pub struct Request {
    pub id: i64,
    pub user_id: i64,
}

#[derive(Debug)]
pub enum Error {
    RepositoryError(repository::Error),
    PermissionDenied,
    TxError(tx_context::Error),
}

pub enum Action {
    BeginTx { isolation_level: Option<IsolationLevel>, access_mode: Option<AccessMode> },
    GetMusicListOwnerId { music_list_id: i64 },
    DeleteMusicList { id: i64 },
    Commit,
    /// An open transaction that was not committed is dropped, which rolls
    /// it back.
    Finish(Result<(), Error>),
}

pub enum Event {
    TxBegun(Result<(), tx_context::Error>),
    OwnerId(Result<i64, repository::Error>),
    Deleted(Result<(), repository::Error>),
    Committed(Result<(), tx_context::Error>),
}

#[derive(Debug, Clone, Copy, PartialEq, Eq, Structural)]
pub enum Phase {
    BeginningTx,
    ReadingOwner,
    Deleting,
    Committing,
    Finished,
}

pub struct Handler {
    pub request: Request,
    pub phase: Phase,
    pub owner_id: Ghost<Option<i64>>,
}

impl Handler {
    pub open spec fn wf(&self) -> bool {
        (self.phase == Phase::Deleting || self.phase == Phase::Committing) ==> self.owner_id@ == Some(
            self.request.user_id,
        )
    }

    pub open spec fn accepts_spec(&self, event: &Event) -> bool {
        match event {
            Event::TxBegun(_) => self.phase == Phase::BeginningTx,
            Event::OwnerId(_) => self.phase == Phase::ReadingOwner,
            Event::Deleted(_) => self.phase == Phase::Deleting,
            Event::Committed(_) => self.phase == Phase::Committing,
        }
    }

    pub fn accepts(&self, event: &Event) -> (r: bool)
        ensures
            r == self.accepts_spec(event),
    {
        match event {
            Event::TxBegun(_) => self.phase == Phase::BeginningTx,
            Event::OwnerId(_) => self.phase == Phase::ReadingOwner,
            Event::Deleted(_) => self.phase == Phase::Deleting,
            Event::Committed(_) => self.phase == Phase::Committing,
        }
    }

    pub fn start(request: Request) -> (r: (Handler, Action))
        ensures
            r.0.request == request,
            r.0.phase == Phase::BeginningTx,
            r.0.wf(),
            r.1 == (Action::BeginTx { isolation_level: Some(IsolationLevel::ReadCommitted), access_mode: None }),
    {
        (
            Handler { request, phase: Phase::BeginningTx, owner_id: Ghost(None) },
            Action::BeginTx { isolation_level: Some(IsolationLevel::ReadCommitted), access_mode: None },
        )
    }

    pub fn on_event(&mut self, event: Event) -> (action: Action)
        requires
            old(self).wf(),
            old(self).accepts_spec(&event),
        ensures
            final(self).wf(),
            final(self).request == old(self).request,
            match event {
                Event::TxBegun(Ok(())) => final(self).phase == Phase::ReadingOwner && action == (
                Action::GetMusicListOwnerId { music_list_id: old(self).request.id }),
                Event::TxBegun(Err(e)) => final(self).phase == Phase::Finished && action == Action::Finish(
                    Err(Error::TxError(e)),
                ),
                Event::OwnerId(Err(e)) => final(self).phase == Phase::Finished && action == Action::Finish(
                    Err(Error::RepositoryError(e)),
                ),
                Event::OwnerId(Ok(owner)) => if owner == old(self).request.user_id {
                    final(self).phase == Phase::Deleting && action == (Action::DeleteMusicList {
                        id: old(self).request.id,
                    })
                } else {
                    final(self).phase == Phase::Finished && action == Action::Finish(Err(Error::PermissionDenied))
                },
                Event::Deleted(Ok(())) => final(self).phase == Phase::Committing && action == Action::Commit,
                Event::Deleted(Err(e)) => final(self).phase == Phase::Finished && action == Action::Finish(
                    Err(Error::RepositoryError(e)),
                ),
                Event::Committed(Ok(())) => final(self).phase == Phase::Finished && action == Action::Finish(Ok(())),
                Event::Committed(Err(e)) => final(self).phase == Phase::Finished && action == Action::Finish(
                    Err(Error::TxError(e)),
                ),
            },
            // Only a list the requesting user owns is ever deleted.
            action is DeleteMusicList ==> final(self).owner_id@ == Some(final(self).request.user_id),
    {
        match event {
            Event::TxBegun(Ok(())) => {
                self.phase = Phase::ReadingOwner;
                Action::GetMusicListOwnerId { music_list_id: self.request.id }
            },
            Event::TxBegun(Err(e)) => {
                self.phase = Phase::Finished;
                Action::Finish(Err(Error::TxError(e)))
            },
            Event::OwnerId(Err(e)) => {
                self.phase = Phase::Finished;
                Action::Finish(Err(Error::RepositoryError(e)))
            },
            Event::OwnerId(Ok(owner)) => {
                self.owner_id = Ghost(Some(owner));
                if owner != self.request.user_id {
                    self.phase = Phase::Finished;
                    return Action::Finish(Err(Error::PermissionDenied));
                }
                self.phase = Phase::Deleting;
                Action::DeleteMusicList { id: self.request.id }
            },
            Event::Deleted(Ok(())) => {
                self.phase = Phase::Committing;
                Action::Commit
            },
            Event::Deleted(Err(e)) => {
                self.phase = Phase::Finished;
                Action::Finish(Err(Error::RepositoryError(e)))
            },
            Event::Committed(Ok(())) => {
                self.phase = Phase::Finished;
                Action::Finish(Ok(()))
            },
            Event::Committed(Err(e)) => {
                self.phase = Phase::Finished;
                Action::Finish(Err(Error::TxError(e)))
            },
        }
    }
}

} // verus!
