//! Visitor fingerprints.

use crate::domain::timestamp::Timestamp;
use vstd::prelude::*;

verus! {

/// `serde_json::Value`, taken as an opaque value: any JSON document.
#[verifier::external_type_specification]
#[verifier::external_body]
pub struct ExJsonValue(serde_json::Value);

/// `Clone::clone` of `serde_json::Value`, which the crate derives: the copy is
/// the same JSON document as the value it was made from.
pub assume_specification[ <serde_json::Value as Clone>::clone ](value: &serde_json::Value) -> (r:
    serde_json::Value)
    ensures
        r == *value,
;

/// A fingerprint row: the components a visitor's browser reported.
#[derive(Debug)]
pub struct Fingerprint {
    pub visitor_id: String,
    pub components: serde_json::Value,
    pub created_at: Timestamp,
}

impl Clone for Fingerprint {
    fn clone(&self) -> (r: Self)
        ensures
            r == *self,
    {
        Fingerprint {
            visitor_id: self.visitor_id.clone(),
            components: self.components.clone(),
            created_at: self.created_at,
        }
    }
}

/// A request to record a fingerprint.
#[derive(Debug)]
pub struct FingerprintRequest {
    pub altcha: String,
    pub visitor_id: String,
    pub components: serde_json::Value,
}

} // verus!
