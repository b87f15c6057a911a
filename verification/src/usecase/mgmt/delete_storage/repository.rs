use vstd::prelude::*;

verus! {

#[derive(Debug)]
pub enum Error {
    StorageNotFound,
    Unknown(String),
}

} // verus!
