use vstd::prelude::*;

verus! {

#[derive(Debug)]
pub enum Error {
    JobNotFound,
    Unknown(String),
}

} // verus!
