//! Looking up where on disk a piece of music is stored.
use vstd::prelude::*;

pub mod repository;

verus! {

pub struct Request {
    pub music_info_id: Vec<u8>,
}

pub struct Response {
    pub file_path: String,
}

#[derive(Debug)]
pub enum Error {
    RepositoryError(repository::Error),
}

pub enum Action {
    GetMusicInfoFilePath { music_info_id: Vec<u8> },
    Finish(Result<Response, Error>),
}

pub enum Event {
    FilePath(Result<String, repository::Error>),
}

#[derive(Debug, Clone, Copy, PartialEq, Eq, Structural)]
pub enum Phase {
    ReadingPath,
    Finished,
}

pub struct Handler {
    pub phase: Phase,
}

impl Handler {
    pub open spec fn accepts_spec(&self, event: &Event) -> bool {
        self.phase == Phase::ReadingPath
    }

    pub fn accepts(&self, event: &Event) -> (r: bool)
        ensures
            r == self.accepts_spec(event),
    {
        self.phase == Phase::ReadingPath
    }

    pub fn start(request: Request) -> (r: (Handler, Action))
        ensures
            r.0.phase == Phase::ReadingPath,
            r.1 == (Action::GetMusicInfoFilePath { music_info_id: request.music_info_id }),
    {
        (Handler { phase: Phase::ReadingPath }, Action::GetMusicInfoFilePath { music_info_id: request.music_info_id })
    }

    pub fn on_event(&mut self, event: Event) -> (action: Action)
        requires
            old(self).accepts_spec(&event),
        ensures
            final(self).phase == Phase::Finished,
            match event {
                Event::FilePath(Ok(p)) => action matches Action::Finish(Ok(resp)) && resp.file_path == p,
                Event::FilePath(Err(e)) => action == Action::Finish(Err(Error::RepositoryError(e))),
            },
    {
        self.phase = Phase::Finished;
        match event {
            Event::FilePath(Ok(file_path)) => Action::Finish(Ok(Response { file_path })),
            Event::FilePath(Err(e)) => Action::Finish(Err(Error::RepositoryError(e))),
        }
    }
}

} // verus!
