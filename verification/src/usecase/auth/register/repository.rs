use vstd::prelude::*;

verus! {

#[derive(Debug)]
pub enum Error {
    UniqueIndex(String),
    Unknown(String),
}

} // verus!
