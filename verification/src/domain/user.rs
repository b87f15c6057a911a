use vstd::prelude::*;
use crate::time::Timestamp;

verus! {

/// An account as the use cases see it. The security stamp is the 128-bit
/// value of the account's UUID stamp.
pub struct Model {
    pub id: i64,
    pub username: String,
    pub password_hash: String,
    pub enabled: bool,
    pub created_at: Timestamp,
    pub security_stamp: u128,
}

} // verus!
