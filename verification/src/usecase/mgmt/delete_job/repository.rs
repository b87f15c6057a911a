use vstd::prelude::*;

verus! {

#[derive(Debug)]
pub enum Error {
    JobNotFound,
    Unknown(String),
}

/// The outcome of deleting a job, from the number of rows the delete
/// removed: none removed means there was no such job.
pub fn deletion_outcome(rows_affected: u64) -> (r: Result<(), Error>)
    ensures
        rows_affected == 0 <==> r is Err,
        r is Err ==> (r matches Err(Error::JobNotFound)),
{
    if rows_affected == 0 {
        Err(Error::JobNotFound)
    } else {
        Ok(())
    }
}

} // verus!
