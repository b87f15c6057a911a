use vstd::prelude::*;

verus! {

#[derive(Debug)]
pub enum Error {
    NameDuplication,
    MusicListNotFound,
    Unknown(String),
}

} // verus!
