use vstd::prelude::*;

verus! {

/// A user's named list of music.
pub struct Model {
    pub id: i64,
    pub name: String,
    pub user_id: i64,
}

} // verus!
