//! Deleting a storage location.
use vstd::prelude::*;

pub mod repository;

verus! {

pub struct Request {
    pub id: i64,
}

#[derive(Debug)]
pub enum Error {
    RepositoryError(repository::Error),
}

pub enum Action {
    DeleteStorage { id: i64 },
    Finish(Result<(), Error>),
}

pub enum Event {
    Deleted(Result<(), repository::Error>),
}

#[derive(Debug, Clone, Copy, PartialEq, Eq, Structural)]
pub enum Phase {
    Deleting,
    Finished,
}

pub struct Handler {
    pub phase: Phase,
}

impl Handler {
    pub open spec fn accepts_spec(&self, event: &Event) -> bool {
        self.phase == Phase::Deleting
    }

    pub fn accepts(&self, event: &Event) -> (r: bool)
        ensures
            r == self.accepts_spec(event),
    {
        self.phase == Phase::Deleting
    }

    pub fn start(request: Request) -> (r: (Handler, Action))
        ensures
            r.0.phase == Phase::Deleting,
            r.1 == (Action::DeleteStorage { id: request.id }),
    {
        (Handler { phase: Phase::Deleting }, Action::DeleteStorage { id: request.id })
    }

    pub fn on_event(&mut self, event: Event) -> (action: Action)
        requires
            old(self).accepts_spec(&event),
        ensures
            final(self).phase == Phase::Finished,
            match event {
                Event::Deleted(Ok(())) => action == Action::Finish(Ok(())),
                Event::Deleted(Err(e)) => action == Action::Finish(Err(Error::RepositoryError(e))),
            },
    {
        self.phase = Phase::Finished;
        match event {
            Event::Deleted(Ok(())) => Action::Finish(Ok(())),
            Event::Deleted(Err(e)) => Action::Finish(Err(Error::RepositoryError(e))),
        }
    }
}

} // verus!
