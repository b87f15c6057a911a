use vstd::prelude::*;

verus! {

#[derive(Debug)]
pub enum Error {
    MusicListNotFound,
    MusicInfoNotInMusicList,
    Unknown(String),
}

/// The outcome of deleting one entry, from the number of rows the delete
/// removed: none removed means the music was not in the list.
pub fn removal_outcome(rows_affected: u64) -> (r: Result<(), Error>)
    ensures
        rows_affected == 0 <==> r is Err,
        r is Err ==> (r matches Err(Error::MusicInfoNotInMusicList)),
{
    if rows_affected == 0 {
        Err(Error::MusicInfoNotInMusicList)
    } else {
        Ok(())
    }
}

} // verus!
