use vstd::prelude::*;

verus! {

/// Longest accepted music list name, counted in characters.
pub const NAME_MAX_CHARS: usize = 50;

#[derive(Debug, Clone, Copy, PartialEq, Eq)]
pub enum Error {
    NameEmpty,
    NameTooLong,
}

/// The outcome of checking a new name, given as its characters.
pub open spec fn validate_spec(name: Seq<char>) -> Result<(), Error> {
    if name.len() == 0 {
        Err(Error::NameEmpty)
    } else if name.len() > NAME_MAX_CHARS {
        Err(Error::NameTooLong)
    } else {
        Ok(())
    }
}

/// The name is rejected as empty when it has no characters, and as too long
/// when it has more than `NAME_MAX_CHARS` characters; otherwise it passes.
pub fn validate(request: &super::Request<'_>) -> (r: Result<(), Error>)
    ensures
        r == Err::<(), Error>(Error::NameEmpty) <==> request.name@.len() == 0,
        r == Err::<(), Error>(Error::NameTooLong) <==> request.name@.len() > NAME_MAX_CHARS,
        r is Ok <==> 0 < request.name@.len() <= NAME_MAX_CHARS,
        r == validate_spec(request.name@),
{
    if request.name.is_empty() {
        return Err(Error::NameEmpty);
    }
    if request.name.unicode_len() > NAME_MAX_CHARS {
        return Err(Error::NameTooLong);
    }
    Ok(())
}

} // verus!
