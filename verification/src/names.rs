//! Names that players give themselves.
use rustrict::CensorStr;
use vstd::prelude::*;

verus! {

/// Whether `rustrict` finds a name inappropriate.
pub uninterp spec fn inappropriate(name: Seq<char>) -> bool;

/// `CensorStr::is_inappropriate`: a verdict on the name, which rests on the name alone. What makes
/// a name inappropriate is up to `rustrict` and its word lists, and nothing is said of it here.
#[verifier::external_body]
pub(crate) fn is_inappropriate(name: &str) -> (verdict: bool)
    ensures
        verdict == inappropriate(name@),
{
    name.is_inappropriate()
}

} // verus!
