//! The structured-payload type attached to error descriptors.
//!
//! Descriptors carry an optional JSON value as `details`. The value itself is
//! opaque to this library: it is stored, cloned and handed back unchanged,
//! never inspected.

use vstd::prelude::*;

verus! {

/// `serde_json::Value`, declared so that it can stand in signatures and
/// fields. The library never looks inside a value of it.
#[verifier::external_type_specification]
#[verifier::external_body]
pub struct ExJsonValue(serde_json::Value);

/// Relies on `serde_json::Value::clone` (a derived `Clone`): the clone is
/// equal to the original value.
pub assume_specification[ <serde_json::Value as Clone>::clone ](
    v: &serde_json::Value,
) -> (r: serde_json::Value)
    ensures
        r == *v,
;

/// Clones an optional JSON payload, preserving it exactly.
pub fn clone_opt_value(v: &Option<serde_json::Value>) -> (r: Option<serde_json::Value>)
    ensures
        r == *v,
{
    match v {
        Option::None => Option::None,
        Option::Some(inner) => Option::Some(inner.clone()),
    }
}

} // verus!
