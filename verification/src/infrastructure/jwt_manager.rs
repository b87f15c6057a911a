use crate::app_trait::jwt_manager::Claims;
use std::sync::Arc;
use vstd::prelude::*;

verus! {

/// Signs and checks access tokens with one shared secret; a token lives
/// `exp_in_seconds` seconds.
#[derive(Clone)]
pub struct JwtManager {
    config: Arc<Config>,
}

pub struct Config {
    secret: String,
    exp_in_seconds: u64,
}

impl Config {
    pub closed spec fn secret_spec(&self) -> Seq<char> {
        self.secret@
    }

    pub closed spec fn exp_in_seconds_spec(&self) -> u64 {
        self.exp_in_seconds
    }
}

impl JwtManager {
    pub closed spec fn config(&self) -> Config {
        *self.config
    }

    pub fn new(secret: String, exp_in_seconds: u64) -> (r: JwtManager)
        ensures
            r.config().secret_spec() == secret@,
            r.config().exp_in_seconds_spec() == exp_in_seconds,
    {
        JwtManager { config: Arc::new(Config { secret, exp_in_seconds }) }
    }

    /// The key material that tokens are signed and checked with.
    pub fn secret(&self) -> (r: &str)
        ensures
            r@ == self.config().secret_spec(),
    {
        self.config.secret.as_str()
    }

    pub fn exp_in_seconds(&self) -> (r: u64)
        ensures
            r == self.config().exp_in_seconds_spec(),
    {
        self.config.exp_in_seconds
    }

    /// The expiry of a token issued at `now_millis` (milliseconds since the
    /// epoch): `exp_in_seconds` later, in milliseconds.
    pub fn expiry_millis(&self, now_millis: u128) -> (r: u128)
        requires
            now_millis + self.config().exp_in_seconds_spec() * 1000 <= u128::MAX,
        ensures
            r == now_millis + self.config().exp_in_seconds_spec() * 1000,
    {
        let secs: u64 = self.config.exp_in_seconds;
        let millis: u128 = (secs as u128) * 1000;
        now_millis + millis
    }

    /// The claims that a token issued at `now_millis` carries: those given,
    /// with `exp` set to the token's expiry.
    pub fn claims_for_token(&self, claims: Claims, now_millis: u128) -> (r: Claims)
        requires
            now_millis + self.config().exp_in_seconds_spec() * 1000 <= u128::MAX,
        ensures
            r.exp == now_millis + self.config().exp_in_seconds_spec() * 1000,
            r.sub == claims.sub,
            r.roles@ == claims.roles@,
            r.security_stamp == claims.security_stamp,
    {
        let exp = self.expiry_millis(now_millis);
        Claims { exp, ..claims }
    }
}

} // verus!
