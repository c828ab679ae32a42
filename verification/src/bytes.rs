//! Views of byte strings that may be absent.

use vstd::prelude::*;

verus! {

/// The view of an optional byte string: the bytes, if there are any.
pub open spec fn option_view(bytes: Option<Vec<u8>>) -> Option<Seq<u8>> {
    match bytes {
        Some(b) => Some(b@),
        None => None,
    }
}

} // verus!
