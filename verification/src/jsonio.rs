//! The one outside call the classifier makes: asking the JSON parser whether
//! a byte sequence is well-formed structured data.

use vstd::prelude::*;

verus! {

/// Whether the JSON parser accepts a byte sequence as a complete structured
/// value.  Acceptance is a function of the bytes alone.
pub uninterp spec fn json_accepts(bytes: Seq<u8>) -> bool;

/// Relies on serde_json::from_slice::<serde_json::Value>: whether it returns
/// Ok depends only on the input bytes.
#[verifier::external_body]
pub(crate) fn json_validates(bytes: &[u8]) -> (r: bool)
    ensures
        r == json_accepts(bytes@),
{
    serde_json::from_slice::<serde_json::Value>(bytes).is_ok()
}

} // verus!
