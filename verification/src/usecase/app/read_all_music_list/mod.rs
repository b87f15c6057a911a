//! Reading one page of the requesting user's music lists, newest first,
//! before a cursor.
use vstd::prelude::*;
use crate::domain::music_list;
use crate::usecase::pagination::{checked_page_size, page_size_in_range, requested_page_size};

pub mod repository;

verus! {

pub struct Request {
    /// Id below which the page starts; none means from the newest list.
    pub cursor: Option<i64>,
    pub page_size: Option<u64>,
    pub user_id: i64,
}

pub struct MusicListItem {
    pub id: i64,
    pub name: String,
}

pub struct Response {
    pub items: Vec<MusicListItem>,
    /// Id of the last list of the page, to ask for the next page with.
    pub next_cursor: Option<i64>,
}

#[derive(Debug)]
pub enum Error {
    RepositoryError(repository::Error),
    PageSizeOutOfRange,
}

/// The cursor a request starts from: the largest id when it names none.
pub open spec fn start_cursor(cursor: Option<i64>) -> i64 {
    match cursor {
        Some(c) => c,
        None => i64::MAX,
    }
}

pub open spec fn item_of(m: music_list::Model) -> MusicListItem {
    MusicListItem { id: m.id, name: m.name }
}

pub fn build_response(rows: Vec<music_list::Model>) -> (r: Response)
    ensures
        r.items@ == rows@.map_values(|m: music_list::Model| item_of(m)),
        r.items@.len() == 0 ==> r.next_cursor is None,
        r.items@.len() > 0 ==> r.next_cursor == Some(r.items@.last().id),
{
    let ghost all = rows@;
    let mut items: Vec<MusicListItem> = Vec::new();
    for m in it: rows.into_iter()
        invariant
            it.seq() == all,
            items@.len() == it.index(),
            forall|j: int| 0 <= j < it.index() ==> #[trigger] items@[j] == item_of(all[j]),
    {
        items.push(MusicListItem { id: m.id, name: m.name });
    }
    assert(items@ =~= all.map_values(|m: music_list::Model| item_of(m)));
    let next_cursor = if items.len() > 0 {
        Some(items[items.len() - 1].id)
    } else {
        None
    };
    Response { items, next_cursor }
}

pub enum Action {
    ReadAllMusicList { page_size: u64, cursor: i64, user_id: i64 },
    Finish(Result<Response, Error>),
}

pub enum Event {
    Page(Result<Vec<music_list::Model>, repository::Error>),
}

#[derive(Debug, Clone, Copy, PartialEq, Eq, Structural)]
pub enum Phase {
    ReadingPage,
    Finished,
}

pub struct Handler {
    pub phase: Phase,
}

impl Handler {
    pub open spec fn accepts_spec(&self, event: &Event) -> bool {
        self.phase == Phase::ReadingPage
    }

    pub fn accepts(&self, event: &Event) -> (r: bool)
        ensures
            r == self.accepts_spec(event),
    {
        self.phase == Phase::ReadingPage
    }

    /// A page size out of range is refused before anything is read.
    pub fn start(request: Request) -> (r: (Handler, Action))
        ensures
            page_size_in_range(requested_page_size(request.page_size)) ==> r.0.phase == Phase::ReadingPage
                && r.1 == (Action::ReadAllMusicList {
                page_size: requested_page_size(request.page_size),
                cursor: start_cursor(request.cursor),
                user_id: request.user_id,
            }),
            !page_size_in_range(requested_page_size(request.page_size)) ==> r.0.phase == Phase::Finished
                && r.1 == Action::Finish(Err(Error::PageSizeOutOfRange)),
    {
        match checked_page_size(request.page_size) {
            None => (Handler { phase: Phase::Finished }, Action::Finish(Err(Error::PageSizeOutOfRange))),
            Some(page_size) => {
                let cursor = match request.cursor {
                    Some(c) => c,
                    None => i64::MAX,
                };
                (
                    Handler { phase: Phase::ReadingPage },
                    Action::ReadAllMusicList { page_size, cursor, user_id: request.user_id },
                )
            },
        }
    }

    pub fn on_event(&mut self, event: Event) -> (action: Action)
        requires
            old(self).accepts_spec(&event),
        ensures
            final(self).phase == Phase::Finished,
            match event {
                Event::Page(Err(e)) => action == Action::Finish(Err(Error::RepositoryError(e))),
                Event::Page(Ok(rows)) => action matches Action::Finish(Ok(resp)) && resp.items@
                    == rows@.map_values(|m: music_list::Model| item_of(m)) && (resp.items@.len() == 0
                    ==> resp.next_cursor is None) && (resp.items@.len() > 0 ==> resp.next_cursor
                    == Some(resp.items@.last().id)),
            },
    {
        self.phase = Phase::Finished;
        match event {
            Event::Page(Err(e)) => Action::Finish(Err(Error::RepositoryError(e))),
            Event::Page(Ok(rows)) => Action::Finish(Ok(build_response(rows))),
        }
    }
}

} // verus!
