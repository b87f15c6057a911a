use vstd::prelude::*;

verus! {

#[derive(Debug)]
pub enum Error {
    JwtError(String),
}

/// The claims of an access token: the user id, the expiry in milliseconds
/// since the epoch, the user's role names and the 128-bit value of the
/// user's security stamp.
#[derive(Debug)]
pub struct Claims {
    pub sub: i64,
    pub exp: u128,
    pub roles: Vec<String>,
    pub security_stamp: u128,
}

} // verus!
