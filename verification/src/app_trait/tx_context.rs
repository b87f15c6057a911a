use vstd::prelude::*;

verus! {

/// A database connection inside an open transaction.
pub trait TxConnection {}

#[derive(Debug)]
pub enum Error {
    Unknown(String),
}

#[derive(Debug, Clone, Copy, PartialEq, Eq, Structural)]
pub enum IsolationLevel {
    RepeatableRead,
    ReadCommitted,
    ReadUncommitted,
    Serializable,
}

#[derive(Debug, Clone, Copy, PartialEq, Eq, Structural)]
pub enum AccessMode {
    ReadOnly,
    ReadWrite,
}

} // verus!
