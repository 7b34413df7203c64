use std::string::FromUtf8Error;
use vstd::prelude::*;
use vstd::string::*;

verus! {

/// The error of a conversion from bytes that are no UTF-8.
#[verifier::external_type_specification]
#[verifier::external_body]
pub struct ExFromUtf8Error(std::string::FromUtf8Error);

/// What `urlencoding::decode` makes of a text: each `%` with two hexadecimal
/// digits behind it becomes the byte they write, and the bytes are read as
/// UTF-8. `None` where they are no UTF-8.
pub uninterp spec fn percent_decoded(text: Seq<char>) -> Option<Seq<char>>;

/// Decodes percent-encoding with `urlencoding::decode`. The result is a
/// function of the text alone; the call fails only where the decoded bytes
/// are no UTF-8.
#[verifier::external_body]
pub(crate) fn percent_decode(text: &str) -> (r: Result<String, FromUtf8Error>)
    ensures
        r matches Ok(s) ==> percent_decoded(text@) == Some(s@),
        r is Err ==> percent_decoded(text@) is None,
{
    urlencoding::decode(text).map(|decoded| decoded.into_owned())
}

} // verus!
