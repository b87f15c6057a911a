//! Moving an entry of a music list to just after another entry (or to the
//! top). Inside one read-committed transaction the handler checks that the
//! requesting user owns the list, reads the positions of the entry's new
//! neighbours, gives the entry a position between them and commits.
use vstd::prelude::*;
use crate::app_trait::tx_context::{self, AccessMode, IsolationLevel};
use crate::ordering::{
    between_would_overflow, bytes_lt, missing_terminator_message, opt_bytes, order_between_neighbours,
    reorder_defined, reorder_outcome, terminated, ReorderError, ReorderFailure,
};

pub mod repository;

verus! {

pub struct Request<'a> {
    pub music_list_id: i64,
    pub music_info_id: &'a [u8],
    /// Move music_info_id after prev_music_info_id, None means move to the top
    pub prev_music_info_id: Option<&'a [u8]>,
    pub user_id: i64,
}

pub struct Response {
    pub new_order: Vec<u8>,
}

#[derive(Debug)]
pub enum Error {
    RepositoryError(repository::Error),
    PermissionDenied,
    DecodeError(String),
    InvalidReorder,
    TxError(tx_context::Error),
}

/// What the handler asks its environment to do next.
pub enum Action<'a> {
    BeginTx { isolation_level: Option<IsolationLevel>, access_mode: Option<AccessMode> },
    GetMusicListOwnerId { music_list_id: i64 },
    /// Read the position of `prev_music_info_id` (if any) and of the entry
    /// that follows it (the first entry when it is `None`).
    GetPrevAndNextOrder { music_list_id: i64, prev_music_info_id: Option<&'a [u8]> },
    UpdateOrder { music_list_id: i64, music_info_id: &'a [u8], new_order: Vec<u8> },
    Commit,
    /// The use case is over with this result; an open transaction that was
    /// not committed is dropped, which rolls it back.
    Finish(Result<Response, Error>),
}

/// What the environment reports back.
pub enum Event {
    TxBegun(Result<(), tx_context::Error>),
    OwnerId(Result<i64, repository::Error>),
    PrevAndNextOrder(Result<(Option<Vec<u8>>, Option<Vec<u8>>), repository::Error>),
    OrderUpdated(Result<(), repository::Error>),
    Committed(Result<(), tx_context::Error>),
}

#[derive(Debug, Clone, Copy, PartialEq, Eq, Structural)]
pub enum Phase {
    BeginningTx,
    ReadingOwner,
    ReadingNeighbours,
    UpdatingOrder,
    Committing,
    Finished,
}

pub struct Handler<'a> {
    pub request: Request<'a>,
    pub phase: Phase,
    /// The position chosen for the entry, once it is known.
    pub new_order: Vec<u8>,
    /// The owner the repository reported, once it is known.
    pub owner_id: Ghost<Option<i64>>,
    /// The positions of the new neighbours, once they are known.
    pub neighbours: Ghost<(Option<Seq<u8>>, Option<Seq<u8>>)>,
}

/// `o` is a well-formed position that sorts after `prev` and before `next`
/// (where they exist).
pub open spec fn placed_between(prev: Option<Seq<u8>>, next: Option<Seq<u8>>, o: Seq<u8>) -> bool {
    &&& terminated(o)
    &&& (prev matches Some(p) ==> bytes_lt(p, o))
    &&& (next matches Some(n) ==> bytes_lt(o, n))
}

impl<'a> Handler<'a> {
    /// Past the ownership check, the reported owner is the requesting user.
    pub open spec fn wf(&self) -> bool {
        &&& (self.phase == Phase::ReadingNeighbours || self.phase == Phase::UpdatingOrder
            || self.phase == Phase::Committing) ==> self.owner_id@ == Some(self.request.user_id)
        &&& (self.phase == Phase::UpdatingOrder || self.phase == Phase::Committing) ==> {
            &&& reorder_outcome(self.neighbours@.0, self.neighbours@.1) == Ok::<Seq<u8>, ReorderFailure>(
                self.new_order@,
            )
            &&& placed_between(self.neighbours@.0, self.neighbours@.1, self.new_order@)
        }
    }

    /// The event answers the action last issued, and neighbours that are
    /// reported do not make `FractionalIndex::new_between` overflow.
    pub open spec fn accepts_spec(&self, event: &Event) -> bool {
        match event {
            Event::TxBegun(_) => self.phase == Phase::BeginningTx,
            Event::OwnerId(_) => self.phase == Phase::ReadingOwner,
            Event::PrevAndNextOrder(r) => self.phase == Phase::ReadingNeighbours && (r matches Ok((p, n))
                ==> reorder_defined(opt_bytes(*p), opt_bytes(*n))),
            Event::OrderUpdated(_) => self.phase == Phase::UpdatingOrder,
            Event::Committed(_) => self.phase == Phase::Committing,
        }
    }

    pub fn accepts(&self, event: &Event) -> (r: bool)
        ensures
            r == self.accepts_spec(event),
    {
        match event {
            Event::TxBegun(_) => self.phase == Phase::BeginningTx,
            Event::OwnerId(_) => self.phase == Phase::ReadingOwner,
            Event::PrevAndNextOrder(r) => {
                if self.phase != Phase::ReadingNeighbours {
                    return false;
                }
                match r {
                    Ok((Some(p), Some(n))) => {
                        let defined = !(p.len() > 0 && p[p.len() - 1] == 128 && n.len() > 0 && n[n.len()
                            - 1] == 128) || !between_would_overflow(p, n);
                        defined
                    },
                    _ => true,
                }
            },
            Event::OrderUpdated(_) => self.phase == Phase::UpdatingOrder,
            Event::Committed(_) => self.phase == Phase::Committing,
        }
    }

    /// The handler begins by opening a read-committed transaction.
    pub fn start(request: Request<'a>) -> (r: (Handler<'a>, Action<'a>))
        ensures
            r.0.request == request,
            r.0.phase == Phase::BeginningTx,
            r.0.wf(),
            r.1 == (Action::BeginTx { isolation_level: Some(IsolationLevel::ReadCommitted), access_mode: None }),
    {
        (
            Handler {
                request,
                phase: Phase::BeginningTx,
                new_order: Vec::new(),
                owner_id: Ghost(None),
                neighbours: Ghost((None, None)),
            },
            Action::BeginTx { isolation_level: Some(IsolationLevel::ReadCommitted), access_mode: None },
        )
    }

    pub fn on_event(&mut self, event: Event) -> (action: Action<'a>)
        requires
            old(self).wf(),
            old(self).accepts_spec(&event),
        ensures
            final(self).wf(),
            final(self).request == old(self).request,
            match event {
                Event::TxBegun(Ok(())) => final(self).phase == Phase::ReadingOwner && action == (
                Action::GetMusicListOwnerId { music_list_id: old(self).request.music_list_id }),
                Event::TxBegun(Err(e)) => final(self).phase == Phase::Finished && action == Action::Finish(
                    Err(Error::TxError(e)),
                ),
                Event::OwnerId(Err(e)) => final(self).phase == Phase::Finished && action == Action::Finish(
                    Err(Error::RepositoryError(e)),
                ),
                Event::OwnerId(Ok(owner)) => if owner == old(self).request.user_id {
                    final(self).phase == Phase::ReadingNeighbours && action == (Action::GetPrevAndNextOrder {
                        music_list_id: old(self).request.music_list_id,
                        prev_music_info_id: old(self).request.prev_music_info_id,
                    })
                } else {
                    final(self).phase == Phase::Finished && action == Action::Finish(
                        Err(Error::PermissionDenied),
                    )
                },
                Event::PrevAndNextOrder(Err(e)) => final(self).phase == Phase::Finished && action
                    == Action::Finish(Err(Error::RepositoryError(e))),
                Event::PrevAndNextOrder(Ok((p, n))) => match reorder_outcome(opt_bytes(p), opt_bytes(n)) {
                    Ok(o) => final(self).phase == Phase::UpdatingOrder && final(self).new_order@ == o
                        && final(self).neighbours@ == (opt_bytes(p), opt_bytes(n)) && placed_between(
                        opt_bytes(p),
                        opt_bytes(n),
                        o,
                    ) && (action matches Action::UpdateOrder { music_list_id, music_info_id, new_order }
                        && music_list_id == old(self).request.music_list_id && music_info_id
                        == old(self).request.music_info_id && new_order@ == o),
                    Err(ReorderFailure::Decode) => final(self).phase == Phase::Finished && (action matches Action::Finish(
                        Err(Error::DecodeError(msg)),
                    ) && msg@ == missing_terminator_message()),
                    Err(ReorderFailure::NoRoomBetween) => final(self).phase == Phase::Finished && action
                        == Action::Finish(Err(Error::InvalidReorder)),
                },
                Event::OrderUpdated(Ok(())) => final(self).phase == Phase::Committing && action == Action::Commit
                    && final(self).new_order@ == old(self).new_order@ && final(self).neighbours@
                    == old(self).neighbours@,
                Event::OrderUpdated(Err(e)) => final(self).phase == Phase::Finished && action
                    == Action::Finish(Err(Error::RepositoryError(e))),
                Event::Committed(Ok(())) => final(self).phase == Phase::Finished && (action matches Action::Finish(
                    Ok(resp),
                ) && resp.new_order@ == old(self).new_order@ && reorder_outcome(
                    old(self).neighbours@.0,
                    old(self).neighbours@.1,
                ) == Ok::<Seq<u8>, ReorderFailure>(resp.new_order@) && placed_between(
                    old(self).neighbours@.0,
                    old(self).neighbours@.1,
                    resp.new_order@,
                )),
                Event::Committed(Err(e)) => final(self).phase == Phase::Finished && action == Action::Finish(
                    Err(Error::TxError(e)),
                ),
            },
            // An order is only ever written for a list the requesting user owns.
            action is UpdateOrder ==> final(self).owner_id@ == Some(final(self).request.user_id),
    {
        match event {
            Event::TxBegun(Ok(())) => {
                self.phase = Phase::ReadingOwner;
                Action::GetMusicListOwnerId { music_list_id: self.request.music_list_id }
            },
            Event::TxBegun(Err(e)) => {
                self.phase = Phase::Finished;
                Action::Finish(Err(Error::TxError(e)))
            },
            Event::OwnerId(Err(e)) => {
                self.phase = Phase::Finished;
                Action::Finish(Err(Error::RepositoryError(e)))
            },
            Event::OwnerId(Ok(owner)) => {
                self.owner_id = Ghost(Some(owner));
                if owner != self.request.user_id {
                    self.phase = Phase::Finished;
                    return Action::Finish(Err(Error::PermissionDenied));
                }
                self.phase = Phase::ReadingNeighbours;
                Action::GetPrevAndNextOrder {
                    music_list_id: self.request.music_list_id,
                    prev_music_info_id: self.request.prev_music_info_id,
                }
            },
            Event::PrevAndNextOrder(Err(e)) => {
                self.phase = Phase::Finished;
                Action::Finish(Err(Error::RepositoryError(e)))
            },
            Event::PrevAndNextOrder(Ok((prev, next))) => {
                self.neighbours = Ghost((opt_bytes(prev), opt_bytes(next)));
                match order_between_neighbours(prev, next) {
                    Ok(order) => {
                        self.new_order = order.clone();
                        self.phase = Phase::UpdatingOrder;
                        Action::UpdateOrder {
                            music_list_id: self.request.music_list_id,
                            music_info_id: self.request.music_info_id,
                            new_order: order,
                        }
                    },
                    Err(ReorderError::Decode(msg)) => {
                        self.phase = Phase::Finished;
                        Action::Finish(Err(Error::DecodeError(msg)))
                    },
                    Err(ReorderError::NoRoomBetween) => {
                        self.phase = Phase::Finished;
                        Action::Finish(Err(Error::InvalidReorder))
                    },
                }
            },
            Event::OrderUpdated(Ok(())) => {
                self.phase = Phase::Committing;
                Action::Commit
            },
            Event::OrderUpdated(Err(e)) => {
                self.phase = Phase::Finished;
                Action::Finish(Err(Error::RepositoryError(e)))
            },
            Event::Committed(Ok(())) => {
                self.phase = Phase::Finished;
                let mut order: Vec<u8> = Vec::new();
                core::mem::swap(&mut order, &mut self.new_order);
                Action::Finish(Ok(Response { new_order: order }))
            },
            Event::Committed(Err(e)) => {
                self.phase = Phase::Finished;
                Action::Finish(Err(Error::TxError(e)))
            },
        }
    }
}

} // verus!
