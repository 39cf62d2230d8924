//! Generation of fresh facility identifiers.

use vstd::prelude::*;
use crate::types::FacilityId;

verus! {

/// Relies on uuid::Uuid::new_v4 and Uuid::as_u128: a freshly drawn random
/// identifier. The value is random, so nothing is promised of it.
#[verifier::external_body]
pub fn fresh_facility_id() -> FacilityId {
    FacilityId { value: uuid::Uuid::new_v4().as_u128() }
}

} // verus!
