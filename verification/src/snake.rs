//! The snake_case test that both the field names and the mapped column names
//! are held to.

use vstd::prelude::*;

verus! {

/// Whether a string is snake_case, exactly as `cruet::is_snake_case` decides
/// it: the string equals its own snake_case conversion. The conversion's full
/// case-folding and word-boundary behaviour is not restated here; the rules'
/// contracts speak of this name instead.
pub uninterp spec fn is_snake(s: Seq<char>) -> bool;

/// Relies on `cruet::is_snake_case`: true exactly when the string equals
/// `cruet::to_snake_case` of itself. The result depends on the characters
/// alone.
#[verifier::external_body]
pub(crate) fn is_snake_case_str(s: &str) -> (r: bool)
    ensures
        r == is_snake(s@),
{
    cruet::is_snake_case(s)
}

} // verus!
