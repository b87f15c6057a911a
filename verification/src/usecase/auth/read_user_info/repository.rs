use vstd::prelude::*;

verus! {

#[derive(Debug)]
pub enum Error {
    UserNotFound,
    Unknown(String),
}

} // verus!
