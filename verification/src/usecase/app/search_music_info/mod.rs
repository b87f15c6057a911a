//! Full-text search over the music library.
use vstd::prelude::*;
use crate::app_trait::search_engine::{self, SearchResults};

verus! {

pub struct Request<'a> {
    pub query: &'a str,
    pub hits_per_page: Option<usize>,
    pub page: Option<usize>,
}

/// The search document of one piece of music.
#[derive(Clone)]
pub struct MusicInfoSearchItem {
    /// hex-encoded, 128 bit
    pub id: String,
    pub title: String,
    pub artists: Vec<String>,
    pub album_title: String,
}

pub struct Response {
    pub results: SearchResults<MusicInfoSearchItem>,
}

#[derive(Debug)]
pub enum Error {
    SearchEngineError(search_engine::Error),
}

pub const DEFAULT_HITS_PER_PAGE: usize = 10;

pub const DEFAULT_PAGE: usize = 1;

pub enum Action<'a> {
    SearchMusicInfo { query: &'a str, hits_per_page: usize, page: usize },
    Finish(Result<Response, Error>),
}

pub enum Event {
    Searched(Result<SearchResults<MusicInfoSearchItem>, search_engine::Error>),
}

#[derive(Debug, Clone, Copy, PartialEq, Eq, Structural)]
pub enum Phase {
    Searching,
    Finished,
}

pub struct Handler {
    pub phase: Phase,
}

impl Handler {
    pub open spec fn accepts_spec(&self, event: &Event) -> bool {
        self.phase == Phase::Searching
    }

    pub fn accepts(&self, event: &Event) -> (r: bool)
        ensures
            r == self.accepts_spec(event),
    {
        self.phase == Phase::Searching
    }

    /// Without a page size the search asks for ten hits per page, and
    /// without a page number for the first page.
    pub fn start<'a>(request: Request<'a>) -> (r: (Handler, Action<'a>))
        ensures
            r.0.phase == Phase::Searching,
            r.1 == (Action::SearchMusicInfo {
                query: request.query,
                hits_per_page: match request.hits_per_page {
                    Some(n) => n,
                    None => DEFAULT_HITS_PER_PAGE,
                },
                page: match request.page {
                    Some(p) => p,
                    None => DEFAULT_PAGE,
                },
            }),
    {
        let hits_per_page = match request.hits_per_page {
            Some(n) => n,
            None => DEFAULT_HITS_PER_PAGE,
        };
        let page = match request.page {
            Some(p) => p,
            None => DEFAULT_PAGE,
        };
        (Handler { phase: Phase::Searching }, Action::SearchMusicInfo { query: request.query, hits_per_page, page })
    }

    pub fn on_event<'a>(&mut self, event: Event) -> (action: Action<'a>)
        requires
            old(self).accepts_spec(&event),
        ensures
            final(self).phase == Phase::Finished,
            match event {
                Event::Searched(Ok(results)) => action == Action::Finish(Ok(Response { results })),
                Event::Searched(Err(e)) => action == Action::Finish(Err(Error::SearchEngineError(e))),
            },
    {
        self.phase = Phase::Finished;
        match event {
            Event::Searched(Ok(results)) => Action::Finish(Ok(Response { results })),
            Event::Searched(Err(e)) => Action::Finish(Err(Error::SearchEngineError(e))),
        }
    }
}

} // verus!
