//! Reading one page of a music list's entries, in position order, after
//! a cursor. Only the owner of the list may read it.
use vstd::prelude::*;
use crate::domain::{music_info, music_info_music_list};
use crate::usecase::pagination::{checked_page_size, page_size_in_range, requested_page_size};

pub mod repository;

verus! {

pub struct Request {
    pub music_list_id: i64,
    /// Position after which the page starts; none means from the top.
    pub cursor: Option<Vec<u8>>,
    pub page_size: Option<u64>,
    pub user_id: i64,
}

pub struct MusicInfoItem {
    pub music_info_id: Vec<u8>,
    pub order: Vec<u8>,
    pub title: String,
    pub artists: Vec<String>,
    pub album_title: String,
    pub track_number: i32,
    pub audio_bitrate: i32,
    pub sample_rate: i32,
    pub channels: i16,
    pub bit_depth: i16,
    pub storage_id: i64,
    pub file_path: String,
}

pub struct Response {
    pub items: Vec<MusicInfoItem>,
    /// Position of the last item of the page, to ask for the next page with.
    pub next_cursor: Option<Vec<u8>>,
}

#[derive(Debug)]
pub enum Error {
    RepositoryError(repository::Error),
    PermissionDenied,
    PageSizeOutOfRange,
}

/// The item shown for one entry of the list and the music it refers to.
pub open spec fn item_of(entry: music_info_music_list::Model, info: music_info::Model) -> MusicInfoItem {
    MusicInfoItem {
        music_info_id: entry.music_info_id,
        order: entry.order,
        title: info.title,
        artists: info.artists,
        album_title: info.album_title,
        track_number: info.track_number,
        audio_bitrate: info.audio_bitrate,
        sample_rate: info.sample_rate,
        channels: info.channels,
        bit_depth: info.bit_depth,
        storage_id: info.storage_id,
        file_path: info.file_path,
    }
}

/// The items of a page: the first `page_size` rows the repository returned,
/// each shown as its item.
pub open spec fn page_items(
    rows: Seq<(music_info_music_list::Model, music_info::Model)>,
    page_size: nat,
) -> Seq<MusicInfoItem> {
    rows.take(if rows.len() < page_size { rows.len() as int } else { page_size as int }).map_values(
        |row: (music_info_music_list::Model, music_info::Model)| item_of(row.0, row.1),
    )
}

/// Each item of a page shows the entry and the music row it was built
/// from, field by field, in the order the repository returned them; a page
/// holds the first `page_size` rows, or all of them when there are fewer.
pub proof fn lemma_page_items_show_their_rows(
    rows: Seq<(music_info_music_list::Model, music_info::Model)>,
    page_size: nat,
)
    ensures
        page_items(rows, page_size).len() == if rows.len() < page_size { rows.len() } else { page_size },
        forall|i: int|
            0 <= i < page_items(rows, page_size).len() ==> {
                let item = #[trigger] page_items(rows, page_size)[i];
                let (entry, info) = rows[i];
                &&& item.music_info_id == entry.music_info_id
                &&& item.order == entry.order
                &&& item.title == info.title
                &&& item.artists == info.artists
                &&& item.album_title == info.album_title
                &&& item.track_number == info.track_number
                &&& item.audio_bitrate == info.audio_bitrate
                &&& item.sample_rate == info.sample_rate
                &&& item.channels == info.channels
                &&& item.bit_depth == info.bit_depth
                &&& item.storage_id == info.storage_id
                &&& item.file_path == info.file_path
            },
{
}

/// The page answered for the rows the repository returned: at most
/// `page_size` items, and the position of the last one as the next cursor.
pub fn build_response(
    rows: Vec<(music_info_music_list::Model, music_info::Model)>,
    page_size: u64,
) -> (r: Response)
    ensures
        r.items@ == page_items(rows@, page_size as nat),
        r.items@.len() <= rows@.len(),
        forall|i: int|
            0 <= i < r.items@.len() ==> {
                &&& (#[trigger] r.items@[i]).music_info_id == rows@[i].0.music_info_id
                &&& r.items@[i].order == rows@[i].0.order
                &&& r.items@[i].title == rows@[i].1.title
                &&& r.items@[i].artists == rows@[i].1.artists
                &&& r.items@[i].album_title == rows@[i].1.album_title
                &&& r.items@[i].track_number == rows@[i].1.track_number
                &&& r.items@[i].audio_bitrate == rows@[i].1.audio_bitrate
                &&& r.items@[i].sample_rate == rows@[i].1.sample_rate
                &&& r.items@[i].channels == rows@[i].1.channels
                &&& r.items@[i].bit_depth == rows@[i].1.bit_depth
                &&& r.items@[i].storage_id == rows@[i].1.storage_id
                &&& r.items@[i].file_path == rows@[i].1.file_path
            },
        r.items@.len() == 0 ==> r.next_cursor is None,
        r.items@.len() > 0 ==> (r.next_cursor matches Some(c) && c@ == r.items@.last().order@),
{
    let mut rows = rows;
    let ghost all = rows@;
    if (page_size as u128) < (rows.len() as u128) {
        rows.truncate(page_size as usize);
    }
    let ghost kept = rows@;
    assert(kept =~= all.take(kept.len() as int));
    let mut items: Vec<MusicInfoItem> = Vec::new();
    for row in it: rows.into_iter()
        invariant
            it.seq() == kept,
            items@.len() == it.index(),
            forall|j: int| 0 <= j < it.index() ==> #[trigger] items@[j] == item_of(kept[j].0, kept[j].1),
    {
        let (entry, info) = row;
        items.push(MusicInfoItem {
            music_info_id: entry.music_info_id,
            order: entry.order,
            title: info.title,
            artists: info.artists,
            album_title: info.album_title,
            track_number: info.track_number,
            audio_bitrate: info.audio_bitrate,
            sample_rate: info.sample_rate,
            channels: info.channels,
            bit_depth: info.bit_depth,
            storage_id: info.storage_id,
            file_path: info.file_path,
        });
    }
    assert(items@ =~= page_items(all, page_size as nat));
    let next_cursor = if items.len() > 0 {
        Some(items[items.len() - 1].order.clone())
    } else {
        None
    };
    Response { items, next_cursor }
}

pub enum Action {
    GetMusicListOwnerId { music_list_id: i64 },
    ReadAllMusicInfoFromMusicList { music_list_id: i64, page_size: u64, cursor: Vec<u8> },
    Finish(Result<Response, Error>),
}

pub enum Event {
    OwnerId(Result<i64, repository::Error>),
    Page(Result<Vec<(music_info_music_list::Model, music_info::Model)>, repository::Error>),
}

#[derive(Debug, Clone, Copy, PartialEq, Eq, Structural)]
pub enum Phase {
    ReadingOwner,
    ReadingPage,
    Finished,
}

pub struct Handler {
    pub music_list_id: i64,
    pub user_id: i64,
    pub page_size: Option<u64>,
    pub cursor: Option<Vec<u8>>,
    pub phase: Phase,
    pub owner_id: Ghost<Option<i64>>,
}

pub open spec fn cursor_bytes(cursor: Option<Vec<u8>>) -> Seq<u8> {
    match cursor {
        Some(c) => c@,
        None => Seq::empty(),
    }
}

impl Handler {
    pub open spec fn wf(&self) -> bool {
        self.phase == Phase::ReadingPage ==> self.owner_id@ == Some(self.user_id)
            && page_size_in_range(requested_page_size(self.page_size))
    }

    pub open spec fn accepts_spec(&self, event: &Event) -> bool {
        match event {
            Event::OwnerId(_) => self.phase == Phase::ReadingOwner,
            Event::Page(_) => self.phase == Phase::ReadingPage,
        }
    }

    pub fn accepts(&self, event: &Event) -> (r: bool)
        ensures
            r == self.accepts_spec(event),
    {
        match event {
            Event::OwnerId(_) => self.phase == Phase::ReadingOwner,
            Event::Page(_) => self.phase == Phase::ReadingPage,
        }
    }

    /// The handler begins by reading who owns the list.
    pub fn start(request: Request) -> (r: (Handler, Action))
        ensures
            r.0.music_list_id == request.music_list_id,
            r.0.user_id == request.user_id,
            r.0.page_size == request.page_size,
            r.0.cursor == request.cursor,
            r.0.phase == Phase::ReadingOwner,
            r.0.wf(),
            r.1 == (Action::GetMusicListOwnerId { music_list_id: request.music_list_id }),
    {
        let id = request.music_list_id;
        (
            Handler {
                music_list_id: request.music_list_id,
                user_id: request.user_id,
                page_size: request.page_size,
                cursor: request.cursor,
                phase: Phase::ReadingOwner,
                owner_id: Ghost(None),
            },
            Action::GetMusicListOwnerId { music_list_id: id },
        )
    }

    pub fn on_event(&mut self, event: Event) -> (action: Action)
        requires
            old(self).wf(),
            old(self).accepts_spec(&event),
        ensures
            final(self).wf(),
            final(self).music_list_id == old(self).music_list_id,
            final(self).user_id == old(self).user_id,
            final(self).page_size == old(self).page_size,
            match event {
                Event::OwnerId(Err(e)) => final(self).phase == Phase::Finished && action == Action::Finish(
                    Err(Error::RepositoryError(e)),
                ),
                Event::OwnerId(Ok(owner)) => if owner != old(self).user_id {
                    final(self).phase == Phase::Finished && action == Action::Finish(Err(Error::PermissionDenied))
                } else if !page_size_in_range(requested_page_size(old(self).page_size)) {
                    final(self).phase == Phase::Finished && action == Action::Finish(Err(Error::PageSizeOutOfRange))
                } else {
                    final(self).phase == Phase::ReadingPage && (action matches Action::ReadAllMusicInfoFromMusicList {
                        music_list_id, page_size, cursor } && music_list_id == old(self).music_list_id
                        && page_size == requested_page_size(old(self).page_size)
                        && cursor@ == cursor_bytes(old(self).cursor))
                },
                Event::Page(Err(e)) => final(self).phase == Phase::Finished && action == Action::Finish(
                    Err(Error::RepositoryError(e)),
                ),
                Event::Page(Ok(rows)) => final(self).phase == Phase::Finished && (action matches Action::Finish(Ok(resp))
                    && resp.items@ == page_items(rows@, requested_page_size(old(self).page_size) as nat)
                    && (resp.items@.len() == 0 ==> resp.next_cursor is None)
                    && (resp.items@.len() > 0 ==> (resp.next_cursor matches Some(c) && c@ == resp.items@.last().order@))),
            },
            // Entries are only ever read from a list the requesting user owns.
            action is ReadAllMusicInfoFromMusicList ==> final(self).owner_id@ == Some(final(self).user_id),
    {
        match event {
            Event::OwnerId(Err(e)) => {
                self.phase = Phase::Finished;
                Action::Finish(Err(Error::RepositoryError(e)))
            },
            Event::OwnerId(Ok(owner)) => {
                self.owner_id = Ghost(Some(owner));
                if owner != self.user_id {
                    self.phase = Phase::Finished;
                    return Action::Finish(Err(Error::PermissionDenied));
                }
                let page_size = match checked_page_size(self.page_size) {
                    Some(n) => n,
                    None => {
                        self.phase = Phase::Finished;
                        return Action::Finish(Err(Error::PageSizeOutOfRange));
                    },
                };
                let cursor = match self.cursor.take() {
                    Some(c) => c,
                    None => Vec::new(),
                };
                self.phase = Phase::ReadingPage;
                Action::ReadAllMusicInfoFromMusicList { music_list_id: self.music_list_id, page_size, cursor }
            },
            Event::Page(Err(e)) => {
                self.phase = Phase::Finished;
                Action::Finish(Err(Error::RepositoryError(e)))
            },
            Event::Page(Ok(rows)) => {
                self.phase = Phase::Finished;
                let page_size = match self.page_size {
                    Some(n) => n,
                    None => crate::usecase::pagination::DEFAULT_PAGE_SIZE,
                };
                Action::Finish(Ok(build_response(rows, page_size)))
            },
        }
    }
}

} // verus!
