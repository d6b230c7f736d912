//! The one outside check the assembler rests on: whether a payload text is a
//! well-formed JSON document.

use vstd::prelude::*;

verus! {

/// Whether serde_json accepts the text as one well-formed JSON document.
pub uninterp spec fn json_ok(s: Seq<char>) -> bool;

/// Relies on serde_json's `from_str::<Value>`: it returns `Ok` exactly when
/// the text is a single well-formed JSON document. A rejection is handed
/// back as the parser's message.
#[verifier::external_body]
pub(crate) fn check_json(s: &str) -> (r: Result<(), String>)
    ensures
        r is Ok <==> json_ok(s@),
{
    match serde_json::from_str::<serde_json::Value>(s) {
        Ok(_) => Ok(()),
        Err(e) => Err(e.to_string()),
    }
}

} // verus!
