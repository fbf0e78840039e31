//! Text as the standard formatter prints it for inspection.

use vstd::prelude::*;

verus! {

/// What `{:?}` prints for a string: the string between double quotes, with
/// the characters escaped that cannot stand there as they are.
pub uninterp spec fn debug_quoted(text: Seq<char>) -> Seq<char>;

/// Formats a string with `{:?}`, as std's `Debug` for `str` does. Nothing is
/// proved of the result; the contract gives it its name, so that the same
/// text is known to come out for the same string.
#[verifier::external_body]
pub(crate) fn quote(text: &str) -> (quoted: String)
    ensures
        quoted@ == debug_quoted(text@),
{
    format!("{:?}", text)
}

} // verus!
