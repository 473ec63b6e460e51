//! JSON values that pass through the router untouched.
use vstd::prelude::*;

verus! {

/// A JSON value of serde_json, opaque to the proofs: the router carries
/// request ids, parameters, results and upstream errors without reading them.
#[verifier::external_type_specification]
#[verifier::external_body]
pub struct ExValue(serde_json::Value);

/// Relies on the derived `Clone` of `serde_json::Value`: the copy is the same value.
pub assume_specification[ <serde_json::Value as Clone>::clone ](v: &serde_json::Value) -> (r: serde_json::Value)
    ensures
        r == *v,
;

} // verus!
