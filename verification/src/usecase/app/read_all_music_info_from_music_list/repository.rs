use vstd::prelude::*;

verus! {

#[derive(Debug)]
pub enum Error {
    MusicListNotFound,
    Unknown(String),
}

} // verus!
