//! serde_json's JSON value, which requests carry as their params.
use vstd::prelude::*;

verus! {

/// serde_json's dynamically typed JSON value, carried through opaquely.
#[verifier::external_type_specification]
#[verifier::external_body]
pub struct ExValue(serde_json::Value);

} // verus!
