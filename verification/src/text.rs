//! Texts that may be missing.

use vstd::prelude::*;

verus! {

/// A text that may be missing, as what it is.
pub open spec fn text_view(text: Option<String>) -> Option<Seq<char>> {
    match text {
        None => None,
        Some(t) => Some(t@),
    }
}

} // verus!
