//! Trusted JSON validity check.
//!
//! Whether a piece of text is a syntactically valid JSON document is decided
//! by `serde_json`.  The result depends on the characters alone, so it is
//! named by an uninterpreted spec function and every contract in the crate
//! speaks through that name.

use vstd::prelude::*;

verus! {

/// Whether `serde_json` accepts the text as a valid JSON document.
pub uninterp spec fn spec_json_valid(s: Seq<char>) -> bool;

/// Relies on `serde_json::from_str::<Value>`: returns whether the text
/// parses as a JSON document.  The outcome depends on the characters alone.
#[verifier::external_body]
pub fn json_parses(s: &str) -> (r: bool)
    ensures
        r == spec_json_valid(s@),
{
    serde_json::from_str::<serde_json::Value>(s).is_ok()
}

} // verus!
