use vstd::prelude::*;

verus! {

/// One entry of a music list, at position `order`.
pub struct Model {
    pub music_list_id: i64,
    pub music_info_id: Vec<u8>,
    pub order: Vec<u8>,
}

} // verus!
