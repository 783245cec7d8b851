//! Canonical casing of condition text.

use convert_case::{Case, Casing};
use vstd::prelude::*;

verus! {

/// The Pascal-case form of a text, as `convert_case` computes it.
pub uninterp spec fn pascal_of(s: Seq<char>) -> Seq<char>;

/// A single word of lower-case ASCII letters.
pub open spec fn is_lower_word(s: Seq<char>) -> bool {
    s.len() > 0 && forall|i: int| 0 <= i < s.len() ==> 'a' <= #[trigger] s[i] && s[i] <= 'z'
}

/// The ASCII upper-case form of a lower-case letter.
pub open spec fn upper_of(c: char) -> char {
    if 'a' <= c && c <= 'z' {
        ((c as u32) - 32) as char
    } else {
        c
    }
}

/// A word with its first letter raised to upper case.
pub open spec fn capitalized(s: Seq<char>) -> Seq<char> {
    seq![upper_of(s[0])] + s.drop_first()
}

/// Relies on `convert_case::Casing::to_case` with `Case::Pascal`: the result
/// depends on the text alone, and a single lower-case word has no boundary to
/// split on, so it only gains a capital first letter.
#[verifier::external_body]
pub(crate) fn pascal_case(s: &str) -> (r: String)
    ensures
        r@ == pascal_of(s@),
        is_lower_word(s@) ==> r@ == capitalized(s@),
{
    s.to_case(Case::Pascal)
}

} // verus!
