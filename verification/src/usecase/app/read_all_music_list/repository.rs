use vstd::prelude::*;

verus! {

#[derive(Debug)]
pub enum Error {
    Unknown(String),
}

} // verus!
