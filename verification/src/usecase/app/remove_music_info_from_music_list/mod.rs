//! Removing a piece of music from a music list; only the list's owner may.
use vstd::prelude::*;

pub mod repository;

verus! {

pub struct Request<'a> {
    pub music_list_id: i64,
    pub music_info_id: &'a [u8],
    pub user_id: i64,
}

pub struct Response;

#[derive(Debug)]
pub enum Error {
    RepositoryError(repository::Error),
    PermissionDenied,
}

pub enum Action<'a> {
    GetMusicListOwnerId { music_list_id: i64 },
    RemoveMusicInfoFromMusicList { music_list_id: i64, music_info_id: &'a [u8] },
    Finish(Result<Response, Error>),
}

pub enum Event {
    OwnerId(Result<i64, repository::Error>),
    Removed(Result<(), repository::Error>),
}

#[derive(Debug, Clone, Copy, PartialEq, Eq, Structural)]
pub enum Phase {
    ReadingOwner,
    Removing,
    Finished,
}

pub struct Handler<'a> {
    pub request: Request<'a>,
    pub phase: Phase,
    pub owner_id: Ghost<Option<i64>>,
}

impl<'a> Handler<'a> {
    pub open spec fn wf(&self) -> bool {
        self.phase == Phase::Removing ==> self.owner_id@ == Some(self.request.user_id)
    }

    pub open spec fn accepts_spec(&self, event: &Event) -> bool {
        match event {
            Event::OwnerId(_) => self.phase == Phase::ReadingOwner,
            Event::Removed(_) => self.phase == Phase::Removing,
        }
    }

    pub fn accepts(&self, event: &Event) -> (r: bool)
        ensures
            r == self.accepts_spec(event),
    {
        match event {
            Event::OwnerId(_) => self.phase == Phase::ReadingOwner,
            Event::Removed(_) => self.phase == Phase::Removing,
        }
    }

    pub fn start(request: Request<'a>) -> (r: (Handler<'a>, Action<'a>))
        ensures
            r.0.request == request,
            r.0.phase == Phase::ReadingOwner,
            r.0.wf(),
            r.1 == (Action::GetMusicListOwnerId { music_list_id: request.music_list_id }),
    {
        let id = request.music_list_id;
        (Handler { request, phase: Phase::ReadingOwner, owner_id: Ghost(None) }, Action::GetMusicListOwnerId { music_list_id: id })
    }

    pub fn on_event(&mut self, event: Event) -> (action: Action<'a>)
        requires
            old(self).wf(),
            old(self).accepts_spec(&event),
        ensures
            final(self).wf(),
            final(self).request == old(self).request,
            match event {
                Event::OwnerId(Err(e)) => final(self).phase == Phase::Finished && action == Action::Finish(
                    Err(Error::RepositoryError(e)),
                ),
                Event::OwnerId(Ok(owner)) => if owner == old(self).request.user_id {
                    final(self).phase == Phase::Removing && action == (Action::RemoveMusicInfoFromMusicList {
                        music_list_id: old(self).request.music_list_id,
                        music_info_id: old(self).request.music_info_id,
                    })
                } else {
                    final(self).phase == Phase::Finished && action == Action::Finish(Err(Error::PermissionDenied))
                },
                Event::Removed(Ok(())) => final(self).phase == Phase::Finished && action == Action::Finish(Ok(Response)),
                Event::Removed(Err(e)) => final(self).phase == Phase::Finished && action == Action::Finish(
                    Err(Error::RepositoryError(e)),
                ),
            },
            // Entries are only ever removed from a list the requesting user owns.
            action is RemoveMusicInfoFromMusicList ==> final(self).owner_id@ == Some(final(self).request.user_id),
    {
        match event {
            Event::OwnerId(Err(e)) => {
                self.phase = Phase::Finished;
                Action::Finish(Err(Error::RepositoryError(e)))
            },
            Event::OwnerId(Ok(owner)) => {
                self.owner_id = Ghost(Some(owner));
                if owner != self.request.user_id {
                    self.phase = Phase::Finished;
                    return Action::Finish(Err(Error::PermissionDenied));
                }
                self.phase = Phase::Removing;
                Action::RemoveMusicInfoFromMusicList {
                    music_list_id: self.request.music_list_id,
                    music_info_id: self.request.music_info_id,
                }
            },
            Event::Removed(Ok(())) => {
                self.phase = Phase::Finished;
                Action::Finish(Ok(Response))
            },
            Event::Removed(Err(e)) => {
                self.phase = Phase::Finished;
                Action::Finish(Err(Error::RepositoryError(e)))
            },
        }
    }
}

} // verus!
