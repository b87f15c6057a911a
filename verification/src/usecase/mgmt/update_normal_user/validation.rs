use vstd::prelude::*;

verus! {

pub const USERNAME_MAX_CHARS: usize = 50;
pub const USERNAME_MIN_CHARS: usize = 1;
pub const PASSWORD_MIN_CHARS: usize = 6;

#[derive(Debug, Clone, Copy, PartialEq, Eq)]
pub enum Error {
    UsernameTooLong,
    UsernameTooShort,
    PasswordTooShort,
    NoFieldsToUpdate,
}

/// The outcome of checking an update request, in the order the checks run:
/// something must change, a new username must have between
/// `USERNAME_MIN_CHARS` and `USERNAME_MAX_CHARS` characters, and a new
/// password at least `PASSWORD_MIN_CHARS` characters.
pub open spec fn validation_outcome(
    username: Option<Seq<char>>,
    password: Option<Seq<char>>,
    enabled: Option<bool>,
) -> Result<(), Error> {
    if username is None && password is None && enabled is None {
        Err(Error::NoFieldsToUpdate)
    } else if username is Some && username->0.len() > USERNAME_MAX_CHARS {
        Err(Error::UsernameTooLong)
    } else if username is Some && username->0.len() < USERNAME_MIN_CHARS {
        Err(Error::UsernameTooShort)
    } else if password is Some && password->0.len() < PASSWORD_MIN_CHARS {
        Err(Error::PasswordTooShort)
    } else {
        Ok(())
    }
}

/// What validation decides, in terms of the request's fields: it refuses
/// with `NoFieldsToUpdate` exactly when nothing is to be changed; otherwise
/// a username must have 1 to 50 characters and a password at least 6, the
/// username being looked at first; any request that changes something and
/// meets these bounds is accepted (a password change alone included).
pub proof fn lemma_validation_decides_by_fields(
    username: Option<Seq<char>>,
    password: Option<Seq<char>>,
    enabled: Option<bool>,
)
    ensures
        validation_outcome(username, password, enabled) == Err::<(), Error>(Error::NoFieldsToUpdate) <==> (
        username is None && password is None && enabled is None),
        validation_outcome(username, password, enabled) is Ok <==> {
            &&& !(username is None && password is None && enabled is None)
            &&& (username matches Some(u) ==> 1 <= u.len() <= 50)
            &&& (password matches Some(p) ==> p.len() >= 6)
        },
        validation_outcome(username, password, enabled) == Err::<(), Error>(Error::UsernameTooLong) <==> (
        !(username is None && password is None && enabled is None) && (username matches Some(u) && u.len() > 50)),
        validation_outcome(username, password, enabled) == Err::<(), Error>(Error::UsernameTooShort) <==> (
        !(username is None && password is None && enabled is None) && (username matches Some(u) && u.len() < 1)),
        validation_outcome(username, password, enabled) == Err::<(), Error>(Error::PasswordTooShort) <==> (
        !(username is None && password is None && enabled is None) && (username matches Some(u) ==> 1 <= u.len()
            <= 50) && (password matches Some(p) && p.len() < 6)),
{
}

pub open spec fn opt_view(s: Option<&str>) -> Option<Seq<char>> {
    match s {
        Some(s) => Some(s@),
        None => None,
    }
}

pub fn validate(request: &super::Request<'_>) -> (r: Result<(), Error>)
    ensures
        r == validation_outcome(opt_view(request.username), opt_view(request.password), request.enabled),
        r == Err::<(), Error>(Error::NoFieldsToUpdate) <==> (request.username is None && request.password is None
            && request.enabled is None),
        (request.password matches Some(p) && p@.len() >= 6) && request.username is None ==> r is Ok,
{
    if request.username.is_none() && request.password.is_none() && request.enabled.is_none() {
        return Err(Error::NoFieldsToUpdate);
    }
    if let Some(username) = request.username {
        let n = username.unicode_len();
        if n > USERNAME_MAX_CHARS {
            return Err(Error::UsernameTooLong);
        }
        if n < USERNAME_MIN_CHARS {
            return Err(Error::UsernameTooShort);
        }
    }
    if let Some(password) = request.password {
        if password.unicode_len() < PASSWORD_MIN_CHARS {
            return Err(Error::PasswordTooShort);
        }
    }
    Ok(())
}

} // verus!
