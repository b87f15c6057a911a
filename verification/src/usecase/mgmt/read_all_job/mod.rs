//! Reading one page of background jobs, newest first, created inside a
//! time window and before a cursor.
use vstd::prelude::*;
use crate::domain::job;
use crate::time::{earlier, safe_max_datetime, safe_min_datetime, Timestamp, SAFE_MAX_SECONDS};
use crate::usecase::pagination::{page_size_in_range, MAX_PAGE_SIZE};

pub mod repository;

verus! {

pub struct Request {
    /// Creation time before which the page starts.
    pub cursor: Option<Timestamp>,
    pub page_size: u64,
    pub created_after: Option<Timestamp>,
    pub created_before: Option<Timestamp>,
}

pub struct JobItem {
    pub id: i64,
    pub job_type: job::JobType,
    pub job_args: serde_json::Value,
    pub status: job::JobStatus,
    pub description: String,
    pub error_message: String,
    pub success: bool,
    pub created_by_id: i64,
    pub created_at: Timestamp,
    pub completed_at: Option<Timestamp>,
}

pub struct Response {
    pub items: Vec<JobItem>,
    /// Creation time of the last job of the page, to ask for the next page with.
    pub next_cursor: Option<Timestamp>,
}

#[derive(Debug)]
pub enum Error {
    RepositoryError(repository::Error),
    PageSizeOutOfRange,
    DateTimeOutOfRange,
}

/// The lower end of the window: the requested one, else the epoch.
pub open spec fn window_start(request: Request) -> Timestamp {
    match request.created_after {
        Some(t) => t,
        None => Timestamp { seconds: 0, nanos: 0 },
    }
}

/// The upper end of the window: the earlier of the requested end (else
/// 9999-12-31T23:59:59Z) and the cursor.
pub open spec fn window_end(request: Request) -> Timestamp {
    let before = match request.created_before {
        Some(t) => t,
        None => Timestamp { seconds: SAFE_MAX_SECONDS, nanos: 0 },
    };
    match request.cursor {
        Some(c) => if earlier(c, before) { c } else { before },
        None => before,
    }
}

pub open spec fn item_of(m: job::Model) -> JobItem {
    JobItem {
        id: m.id,
        job_type: m.job_type,
        job_args: m.job_args,
        status: m.status,
        description: m.description,
        error_message: m.error_message,
        success: m.success,
        created_by_id: m.created_by_id,
        created_at: m.created_at,
        completed_at: m.completed_at,
    }
}

pub fn build_response(rows: Vec<job::Model>) -> (r: Response)
    ensures
        r.items@ == rows@.map_values(|m: job::Model| item_of(m)),
        r.items@.len() == 0 ==> r.next_cursor is None,
        r.items@.len() > 0 ==> r.next_cursor == Some(r.items@.last().created_at),
{
    let ghost all = rows@;
    let mut items: Vec<JobItem> = Vec::new();
    for m in it: rows.into_iter()
        invariant
            it.seq() == all,
            items@.len() == it.index(),
            forall|j: int| 0 <= j < it.index() ==> #[trigger] items@[j] == item_of(all[j]),
    {
        items.push(JobItem {
            id: m.id,
            job_type: m.job_type,
            job_args: m.job_args,
            status: m.status,
            description: m.description,
            error_message: m.error_message,
            success: m.success,
            created_by_id: m.created_by_id,
            created_at: m.created_at,
            completed_at: m.completed_at,
        });
    }
    assert(items@ =~= all.map_values(|m: job::Model| item_of(m)));
    let next_cursor = if items.len() > 0 {
        Some(items[items.len() - 1].created_at)
    } else {
        None
    };
    Response { items, next_cursor }
}

pub enum Action {
    ReadAllJob { page_size: u64, created_after: Timestamp, created_before: Timestamp },
    Finish(Result<Response, Error>),
}

pub enum Event {
    Page(Result<Vec<job::Model>, repository::Error>),
}

#[derive(Debug, Clone, Copy, PartialEq, Eq, Structural)]
pub enum Phase {
    ReadingPage,
    Finished,
}

pub struct Handler {
    pub phase: Phase,
}

impl Handler {
    pub open spec fn accepts_spec(&self, event: &Event) -> bool {
        self.phase == Phase::ReadingPage
    }

    pub fn accepts(&self, event: &Event) -> (r: bool)
        ensures
            r == self.accepts_spec(event),
    {
        self.phase == Phase::ReadingPage
    }

    /// A page size out of range, or a window that is empty once narrowed
    /// by the cursor, is refused before anything is read.
    pub fn start(request: Request) -> (r: (Handler, Action))
        ensures
            !page_size_in_range(request.page_size) ==> r.0.phase == Phase::Finished && r.1 == Action::Finish(
                Err(Error::PageSizeOutOfRange),
            ),
            page_size_in_range(request.page_size) && !earlier(window_start(request), window_end(request))
                ==> r.0.phase == Phase::Finished && r.1 == Action::Finish(Err(Error::DateTimeOutOfRange)),
            page_size_in_range(request.page_size) && earlier(window_start(request), window_end(request))
                ==> r.0.phase == Phase::ReadingPage && r.1 == (Action::ReadAllJob {
                page_size: request.page_size,
                created_after: window_start(request),
                created_before: window_end(request),
            }),
            // Asking for the next page: the cursor becomes the end of the window.
            page_size_in_range(request.page_size) && request.created_before is None && (request.cursor matches Some(
                c,
            ) && c.seconds < SAFE_MAX_SECONDS && earlier(window_start(request), c)) ==> r.0.phase
                == Phase::ReadingPage && r.1 == (Action::ReadAllJob {
                page_size: request.page_size,
                created_after: window_start(request),
                created_before: request.cursor->0,
            }),
    {
        if request.page_size == 0 || request.page_size > MAX_PAGE_SIZE {
            return (Handler { phase: Phase::Finished }, Action::Finish(Err(Error::PageSizeOutOfRange)));
        }
        let created_before = match request.created_before {
            Some(t) => t,
            None => safe_max_datetime(),
        };
        let created_after = match request.created_after {
            Some(t) => t,
            None => safe_min_datetime(),
        };
        let created_before = match request.cursor {
            Some(cursor) => if cursor.is_before(&created_before) {
                cursor
            } else {
                created_before
            },
            None => created_before,
        };
        if !created_after.is_before(&created_before) {
            return (Handler { phase: Phase::Finished }, Action::Finish(Err(Error::DateTimeOutOfRange)));
        }
        (Handler { phase: Phase::ReadingPage }, Action::ReadAllJob { page_size: request.page_size, created_after, created_before })
    }

    pub fn on_event(&mut self, event: Event) -> (action: Action)
        requires
            old(self).accepts_spec(&event),
        ensures
            final(self).phase == Phase::Finished,
            match event {
                Event::Page(Err(e)) => action == Action::Finish(Err(Error::RepositoryError(e))),
                Event::Page(Ok(rows)) => action matches Action::Finish(Ok(resp)) && resp.items@
                    == rows@.map_values(|m: job::Model| item_of(m)) && (resp.items@.len() == 0
                    ==> resp.next_cursor is None) && (resp.items@.len() > 0 ==> resp.next_cursor
                    == Some(resp.items@.last().created_at)),
            },
    {
        self.phase = Phase::Finished;
        match event {
            Event::Page(Err(e)) => Action::Finish(Err(Error::RepositoryError(e))),
            Event::Page(Ok(rows)) => Action::Finish(Ok(build_response(rows))),
        }
    }
}

/// The end of the window is the earlier of the requested end (the last
/// second of the year 9999 when none is given) and the cursor: it is one of
/// the two, and neither is earlier than it. With a cursor and no requested
/// end, the next page is read up to the cursor whenever the cursor is not
/// past that last second.
pub proof fn lemma_window_end_is_the_earlier_bound(request: Request)
    ensures
        ({
            let requested_end = match request.created_before {
                Some(b) => b,
                None => Timestamp { seconds: SAFE_MAX_SECONDS, nanos: 0 },
            };
            &&& window_end(request) == requested_end || request.cursor == Some(window_end(request))
            &&& !earlier(requested_end, window_end(request))
            &&& (request.cursor matches Some(c) ==> !earlier(c, window_end(request)))
        }),
        request.created_before is None && (request.cursor matches Some(c) && c.seconds < SAFE_MAX_SECONDS)
            ==> request.cursor == Some(window_end(request)),
        request.created_after is None ==> window_start(request) == (Timestamp { seconds: 0, nanos: 0 }),
{
}

/// The window handed to the repository is never empty, never reaches past
/// the requested end nor past the cursor, and starts at the requested start.
pub proof fn lemma_job_window(request: Request)
    requires
        earlier(window_start(request), window_end(request)),
    ensures
        request.created_before matches Some(b) ==> !earlier(b, window_end(request)),
        request.cursor matches Some(c) ==> !earlier(c, window_end(request)),
        request.created_after matches Some(a) ==> window_start(request) == a,
{
}

} // verus!
