use vstd::prelude::*;

verus! {

#[derive(Debug)]
pub enum Error {
    UserNotFound,
    UserNotNormalUser,
    UsernameDuplication,
    Unknown(String),
}

} // verus!
