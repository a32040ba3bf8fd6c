use vstd::prelude::*;

verus! {

/// std's I/O error, carried opaquely in a failed load of the register file.
#[verifier::external_type_specification]
#[verifier::external_body]
pub struct ExIoFault(std::io::Error);

/// serde_json's error, carried opaquely when the register file does not parse.
#[verifier::external_type_specification]
#[verifier::external_body]
pub struct ExJsonFault(serde_json::Error);

} // verus!
