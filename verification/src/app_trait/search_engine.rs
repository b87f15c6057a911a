use vstd::prelude::*;

verus! {

#[derive(Debug)]
pub enum Error {
    Unknown(String),
}

/// Where a query term matched inside an attribute.
#[derive(Debug, Clone)]
pub struct MatchRange {
    pub start: usize,
    pub length: usize,
    pub indices: Option<Vec<usize>>,
}

/// One hit with, for each attribute name, the places the query matched.
pub struct SearchResult<T> {
    pub result: T,
    pub matches_position: Vec<(String, Vec<MatchRange>)>,
}

/// One page of hits.
pub struct SearchResults<T> {
    pub hits: Vec<SearchResult<T>>,
    pub page: usize,
    pub total_hits: usize,
    pub total_pages: usize,
}

} // verus!
