use vstd::prelude::*;

verus! {

/// Longest accepted job description, counted in characters.
pub const DESCRIPTION_MAX_CHARS: usize = 200;

#[derive(Debug, Clone, Copy, PartialEq, Eq)]
pub enum Error {
    DescriptionTooLong,
}

/// The description is rejected exactly when it has more than
/// `DESCRIPTION_MAX_CHARS` characters.
pub fn validate(request: &super::Request<'_>) -> (r: Result<(), Error>)
    ensures
        r is Err <==> request.description@.len() > DESCRIPTION_MAX_CHARS,
        r is Err ==> r == Err::<(), Error>(Error::DescriptionTooLong),
{
    if request.description.unicode_len() > DESCRIPTION_MAX_CHARS {
        return Err(Error::DescriptionTooLong);
    }
    Ok(())
}

} // verus!
