use vstd::prelude::*;

verus! {

#[derive(Debug)]
pub enum Error {
    MusicListNotFound,
    MusicInfoNotFound,
    MusicInfoAlreadyInMusicList,
    Unknown(String),
}

} // verus!
