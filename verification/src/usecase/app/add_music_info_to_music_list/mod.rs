//! Appending a piece of music to a music list. The handler checks that the
//! requesting user owns the list, reads the position of the list's last
//! entry, and inserts the new entry at a position after it.
use vstd::prelude::*;
use crate::domain::music_info_music_list;
use crate::ordering::{
    bytes_lt, index_after_bytes, missing_terminator_message, order_after_last, terminated,
    TERMINATOR,
};

pub mod repository;

verus! {

pub struct Request<'a> {
    pub music_list_id: i64,
    pub music_info_id: &'a [u8],
    pub user_id: i64,
}

pub struct Response {
    pub order: Vec<u8>,
}

#[derive(Debug)]
pub enum Error {
    RepositoryError(repository::Error),
    PermissionDenied,
    DecodeError(String),
}

pub enum Action<'a> {
    GetMusicListOwnerId { music_list_id: i64 },
    /// Read the position of the list's last entry; an empty position means
    /// the list is empty.
    GetLastOrder { music_list_id: i64 },
    AddMusicInfoToMusicList { music_list_id: i64, music_info_id: &'a [u8], order: Vec<u8> },
    Finish(Result<Response, Error>),
}

pub enum Event {
    OwnerId(Result<i64, repository::Error>),
    LastOrder(Result<Vec<u8>, repository::Error>),
    Added(Result<music_info_music_list::Model, repository::Error>),
}

#[derive(Debug, Clone, Copy, PartialEq, Eq, Structural)]
pub enum Phase {
    ReadingOwner,
    ReadingLastOrder,
    Adding,
    Finished,
}

pub struct Handler<'a> {
    pub request: Request<'a>,
    pub phase: Phase,
    pub owner_id: Ghost<Option<i64>>,
}

impl<'a> Handler<'a> {
    pub open spec fn wf(&self) -> bool {
        (self.phase == Phase::ReadingLastOrder || self.phase == Phase::Adding) ==> self.owner_id@
            == Some(self.request.user_id)
    }

    pub open spec fn accepts_spec(&self, event: &Event) -> bool {
        match event {
            Event::OwnerId(_) => self.phase == Phase::ReadingOwner,
            Event::LastOrder(_) => self.phase == Phase::ReadingLastOrder,
            Event::Added(_) => self.phase == Phase::Adding,
        }
    }

    pub fn accepts(&self, event: &Event) -> (r: bool)
        ensures
            r == self.accepts_spec(event),
    {
        match event {
            Event::OwnerId(_) => self.phase == Phase::ReadingOwner,
            Event::LastOrder(_) => self.phase == Phase::ReadingLastOrder,
            Event::Added(_) => self.phase == Phase::Adding,
        }
    }

    /// The handler begins by reading who owns the list.
    pub fn start(request: Request<'a>) -> (r: (Handler<'a>, Action<'a>))
        ensures
            r.0.request == request,
            r.0.phase == Phase::ReadingOwner,
            r.0.wf(),
            r.1 == (Action::GetMusicListOwnerId { music_list_id: request.music_list_id }),
    {
        let id = request.music_list_id;
        (Handler { request, phase: Phase::ReadingOwner, owner_id: Ghost(None) }, Action::GetMusicListOwnerId { music_list_id: id })
    }

    pub fn on_event(&mut self, event: Event) -> (action: Action<'a>)
        requires
            old(self).wf(),
            old(self).accepts_spec(&event),
        ensures
            final(self).wf(),
            final(self).request == old(self).request,
            match event {
                Event::OwnerId(Err(e)) => final(self).phase == Phase::Finished && action == Action::Finish(
                    Err(Error::RepositoryError(e)),
                ),
                Event::OwnerId(Ok(owner)) => if owner == old(self).request.user_id {
                    final(self).phase == Phase::ReadingLastOrder && action == (Action::GetLastOrder {
                        music_list_id: old(self).request.music_list_id,
                    })
                } else {
                    final(self).phase == Phase::Finished && action == Action::Finish(Err(Error::PermissionDenied))
                },
                Event::LastOrder(Err(e)) => final(self).phase == Phase::Finished && action == Action::Finish(
                    Err(Error::RepositoryError(e)),
                ),
                Event::LastOrder(Ok(last)) => if last@.len() == 0 {
                    final(self).phase == Phase::Adding && (action matches Action::AddMusicInfoToMusicList {
                        music_list_id, music_info_id, order } && music_list_id == old(self).request.music_list_id
                        && music_info_id == old(self).request.music_info_id && order@ == seq![TERMINATOR])
                } else if terminated(last@) {
                    final(self).phase == Phase::Adding && (action matches Action::AddMusicInfoToMusicList {
                        music_list_id, music_info_id, order } && music_list_id == old(self).request.music_list_id
                        && music_info_id == old(self).request.music_info_id && order@ == index_after_bytes(last@)
                        && bytes_lt(last@, order@) && terminated(order@))
                } else {
                    final(self).phase == Phase::Finished && (action matches Action::Finish(Err(Error::DecodeError(msg)))
                        && msg@ == missing_terminator_message())
                },
                Event::Added(Err(e)) => final(self).phase == Phase::Finished && action == Action::Finish(
                    Err(Error::RepositoryError(e)),
                ),
                Event::Added(Ok(entry)) => final(self).phase == Phase::Finished && (action matches Action::Finish(Ok(resp))
                    && resp.order == entry.order),
            },
            // An entry is only ever added to a list the requesting user owns.
            action is AddMusicInfoToMusicList ==> final(self).owner_id@ == Some(final(self).request.user_id),
    {
        match event {
            Event::OwnerId(Err(e)) => {
                self.phase = Phase::Finished;
                Action::Finish(Err(Error::RepositoryError(e)))
            },
            Event::OwnerId(Ok(owner)) => {
                self.owner_id = Ghost(Some(owner));
                if owner != self.request.user_id {
                    self.phase = Phase::Finished;
                    return Action::Finish(Err(Error::PermissionDenied));
                }
                self.phase = Phase::ReadingLastOrder;
                Action::GetLastOrder { music_list_id: self.request.music_list_id }
            },
            Event::LastOrder(Err(e)) => {
                self.phase = Phase::Finished;
                Action::Finish(Err(Error::RepositoryError(e)))
            },
            Event::LastOrder(Ok(last)) => {
                match order_after_last(last) {
                    Ok(order) => {
                        self.phase = Phase::Adding;
                        Action::AddMusicInfoToMusicList {
                            music_list_id: self.request.music_list_id,
                            music_info_id: self.request.music_info_id,
                            order,
                        }
                    },
                    Err(msg) => {
                        self.phase = Phase::Finished;
                        Action::Finish(Err(Error::DecodeError(msg)))
                    },
                }
            },
            Event::Added(Err(e)) => {
                self.phase = Phase::Finished;
                Action::Finish(Err(Error::RepositoryError(e)))
            },
            Event::Added(Ok(entry)) => {
                self.phase = Phase::Finished;
                Action::Finish(Ok(Response { order: entry.order }))
            },
        }
    }
}

} // verus!
