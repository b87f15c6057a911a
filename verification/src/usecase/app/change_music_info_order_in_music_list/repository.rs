use vstd::prelude::*;

verus! {

#[derive(Debug)]
pub enum Error {
    MusicListNotFound,
    MusicInfoNotInMusicList,
    Unknown(String),
}

} // verus!
