use vstd::prelude::*;

verus! {

#[derive(Debug)]
pub enum Error {
    StorageNotFound,
    NameDuplication,
    PathDuplication,
    Unknown(String),
}

} // verus!
