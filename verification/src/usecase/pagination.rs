//! Page sizes of listing requests.
use vstd::prelude::*;

verus! {

/// Page size used when a request names none.
pub const DEFAULT_PAGE_SIZE: u64 = 10;

/// Largest page a request may ask for.
pub const MAX_PAGE_SIZE: u64 = 1000;

/// The page size a request asks for, the default when it names none.
pub open spec fn requested_page_size(requested: Option<u64>) -> u64 {
    match requested {
        Some(n) => n,
        None => DEFAULT_PAGE_SIZE,
    }
}

pub open spec fn page_size_in_range(n: u64) -> bool {
    1 <= n <= MAX_PAGE_SIZE
}

/// The page size to use, or `None` when the requested one is 0 or larger
/// than `MAX_PAGE_SIZE`.
pub fn checked_page_size(requested: Option<u64>) -> (r: Option<u64>)
    ensures
        page_size_in_range(requested_page_size(requested)) ==> r == Some(requested_page_size(requested)),
        !page_size_in_range(requested_page_size(requested)) ==> r is None,
{
    let n = match requested {
        Some(n) => n,
        None => DEFAULT_PAGE_SIZE,
    };
    if n == 0 || n > MAX_PAGE_SIZE {
        None
    } else {
        Some(n)
    }
}

} // verus!
