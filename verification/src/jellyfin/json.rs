//! The JSON value type that some models carry through without reading it.

use vstd::prelude::*;

verus! {

/// `serde_json::Value`, carried opaquely by the capability and command models.
#[verifier::external_type_specification]
#[verifier::external_body]
pub struct ExJsonValue(serde_json::Value);

} // verus!
