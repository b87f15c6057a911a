use vstd::prelude::*;

verus! {

#[derive(Debug)]
pub enum Error {
    Unknown(String),
}

/// There is no admin yet exactly when no account holds the admin role.
pub fn no_admin_from_count(admin_count: u64) -> (r: bool)
    ensures
        r == (admin_count == 0),
{
    admin_count == 0
}

} // verus!
