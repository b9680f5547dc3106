//! Models and validation for SCIM v2 (System for Cross-domain Identity
//! Management) resources: users, groups, resource types, schema metadata and
//! service-provider capability descriptors, together with their JSON wire
//! representation.
//!
//! Every resource offers protocol-correct default construction, presence
//! validation of its required fields, and a bidirectional JSON mapping using
//! the protocol's camelCase field names.

use vstd::prelude::*;

pub mod json;
pub mod models;
pub mod utils;

use crate::models::enterprise_user::EnterpriseUser;
use crate::utils::error::SCIMError;

verus! {

/// Validates an enterprise user extension record.
///
/// Checks, in declaration order, that `employee_number`, `cost_center`,
/// `organization`, `division`, `department` and `manager` are all present;
/// the first absent field is reported. Presence, not content, is checked:
/// an empty string in a populated slot passes.
pub fn validate_enterprise_user(enterprise_user: &EnterpriseUser) -> (r: Result<(), SCIMError>)
    ensures
        crate::json::res_view(r) == crate::models::enterprise_user::spec_validate_enterprise_user(
            enterprise_user.deep_view(),
        ),
{
    enterprise_user.validate()
}
} // verus!
