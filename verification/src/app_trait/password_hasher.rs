use vstd::prelude::*;

verus! {

#[derive(Debug)]
pub enum Error {
    HashingError(String),
    InvalidPassword,
}

} // verus!
