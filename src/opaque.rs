//! Outside types that the library carries without looking inside them.
use vstd::prelude::*;

verus! {

/// A JSON value of a platform-defined message segment.
#[verifier::external_type_specification]
#[verifier::external_body]
pub struct ExValue(serde_json::Value);

/// Relies on `serde_json::Value`'s `Clone`, which copies the value.
pub assume_specification[ <serde_json::Value as Clone>::clone ](v: &serde_json::Value) -> serde_json::Value;

} // verus!
