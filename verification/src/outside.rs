//! Outside types that the contracts carry without looking inside.
use vstd::prelude::*;

verus! {

/// `uuid::Uuid`: identifiers of tenants, rules, sources, pages and matches.
#[verifier::external_type_specification]
#[verifier::external_body]
pub struct ExUuid(uuid::Uuid);

/// `serde_json::Value`: free-form JSON configuration and explanations.
#[verifier::external_type_specification]
#[verifier::external_body]
pub struct ExJsonValue(serde_json::Value);

/// `Uuid::clone`: `Uuid` derives `Clone` and `Copy`, so a clone is the same
/// identifier.
pub assume_specification[ <uuid::Uuid as Clone>::clone ](id: &uuid::Uuid) -> (copy: uuid::Uuid)
    ensures
        copy == *id,
;

/// `Value::clone`: `Value` derives `Clone`, so a clone is the same JSON value.
pub assume_specification[ <serde_json::Value as Clone>::clone ](value: &serde_json::Value) -> (copy: serde_json::Value)
    ensures
        copy == *value,
;

} // verus!
