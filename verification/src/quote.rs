//! Text in the quoted form that diagnostics show.

use vstd::prelude::*;

verus! {

/// The quoted form of a text: its `Debug` form, with the quotes around it and escapes for
/// the characters that need one.
pub uninterp spec fn quoted(s: Seq<char>) -> Seq<char>;

/// The `Debug` form of a string as `format!` writes it. It depends on the text alone; which
/// characters it escapes is not stated.
#[verifier::external_body]
pub(crate) fn quote(s: &str) -> (r: String)
    ensures
        r@ == quoted(s@),
{
    format!("{:?}", s)
}

} // verus!
