//! Shaping a page of search-engine hits into the page the use case
//! answers with.
use vstd::prelude::*;
use crate::app_trait::search_engine::{MatchRange, SearchResult, SearchResults};

verus! {

/// One hit as the search engine returns it; the match positions are only
/// present when they were asked for.
pub struct RawSearchHit<T> {
    pub result: T,
    pub matches_position: Option<Vec<(String, Vec<MatchRange>)>>,
}

/// A page as the search engine returns it; the page counters are only
/// present when the search asked for a numbered page.
pub struct RawSearchResults<T> {
    pub hits: Vec<RawSearchHit<T>>,
    pub page: Option<usize>,
    pub total_hits: Option<usize>,
    pub total_pages: Option<usize>,
}

/// A search that asks for match positions and for a numbered page gets
/// every one of these values back.
pub open spec fn raw_complete<T>(raw: RawSearchResults<T>) -> bool {
    &&& forall|i: int| 0 <= i < raw.hits@.len() ==> (#[trigger] raw.hits@[i]).matches_position is Some
    &&& raw.page is Some
    &&& raw.total_hits is Some
    &&& raw.total_pages is Some
}

pub fn is_complete<T>(raw: &RawSearchResults<T>) -> (r: bool)
    ensures
        r == raw_complete(*raw),
{
    let mut i: usize = 0;
    while i < raw.hits.len()
        invariant
            0 <= i <= raw.hits@.len(),
            forall|j: int| 0 <= j < i ==> (#[trigger] raw.hits@[j]).matches_position is Some,
        decreases raw.hits@.len() - i,
    {
        if raw.hits[i].matches_position.is_none() {
            return false;
        }
        i = i + 1;
    }
    raw.page.is_some() && raw.total_hits.is_some() && raw.total_pages.is_some()
}

pub open spec fn hit_of<T>(h: RawSearchHit<T>) -> SearchResult<T> {
    SearchResult { result: h.result, matches_position: h.matches_position->0 }
}

/// The page answered: every hit with its match positions, and the page
/// counters.
pub fn to_search_results<T>(raw: RawSearchResults<T>) -> (r: SearchResults<T>)
    requires
        raw_complete(raw),
    ensures
        r.hits@ == raw.hits@.map_values(|h: RawSearchHit<T>| hit_of(h)),
        r.page == raw.page->0,
        r.total_hits == raw.total_hits->0,
        r.total_pages == raw.total_pages->0,
{
    let ghost all = raw.hits@;
    let mut hits: Vec<SearchResult<T>> = Vec::new();
    for h in it: raw.hits.into_iter()
        invariant
            it.seq() == all,
            forall|i: int| 0 <= i < all.len() ==> (#[trigger] all[i]).matches_position is Some,
            hits@.len() == it.index(),
            forall|j: int| 0 <= j < it.index() ==> #[trigger] hits@[j] == hit_of(all[j]),
    {
        let matches_position = match h.matches_position {
            Some(m) => m,
            None => Vec::new(),
        };
        hits.push(SearchResult { result: h.result, matches_position });
    }
    assert(hits@ =~= all.map_values(|h: RawSearchHit<T>| hit_of(h)));
    let page = match raw.page {
        Some(p) => p,
        None => 0,
    };
    let total_hits = match raw.total_hits {
        Some(p) => p,
        None => 0,
    };
    let total_pages = match raw.total_pages {
        Some(p) => p,
        None => 0,
    };
    SearchResults { hits, page, total_hits, total_pages }
}

} // verus!
