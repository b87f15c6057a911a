use vstd::prelude::*;

verus! {

#[derive(Debug)]
pub enum Error {
    MusicInfoNotFound,
    StorageNotFound,
    Unknown(String),
}

} // verus!
