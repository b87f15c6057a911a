use vstd::prelude::*;

verus! {

#[derive(Debug)]
pub enum Error {
    NameDuplication,
    Unknown(String),
}

} // verus!
