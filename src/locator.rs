//! Canonical source locators: `repository`, then `#reference`, then `:path`.

use vstd::prelude::*;

verus! {

/// The locator of a source tree: the repository alone when no reference is
/// given; otherwise `repository#reference`, followed by `:path` when a path
/// is given too.
pub open spec fn locator(
    repository: Seq<char>,
    reference: Option<Seq<char>>,
    path: Option<Seq<char>>,
) -> Seq<char> {
    match reference {
        None => repository,
        Some(r) => match path {
            None => repository + seq!['#'] + r,
            Some(p) => repository + seq!['#'] + r + seq![':'] + p,
        },
    }
}

/// The text held by an optional string.
pub open spec fn opt_text(o: Option<String>) -> Option<Seq<char>> {
    match o {
        None => None,
        Some(s) => Some(s@),
    }
}

/// Composes the locator of `repository` at `reference` and `path`.
pub fn url(repository: &str, reference: &Option<String>, path: &Option<String>) -> (r: String)
    ensures
        r@ == locator(repository@, opt_text(*reference), opt_text(*path)),
{
    let mut out = repository.to_owned();
    if let Some(rf) = reference {
        proof {
            reveal_strlit("#");
        }
        out.append("#");
        out.append(rf.as_str());
        if let Some(p) = path {
            proof {
                reveal_strlit(":");
            }
            out.append(":");
            out.append(p.as_str());
        }
    }
    out
}

} // verus!
