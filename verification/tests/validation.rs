//! Presence validation: required fields, their reporting order, and the
//! distinction between an unset slot and an empty value.

use scim_v2::models::enterprise_user::{EnterpriseUser, Manager};
use scim_v2::models::group::Group;
use scim_v2::models::resource_types::ResourceType;
use scim_v2::utils::error::SCIMError;
use scim_v2::validate_enterprise_user;

#[test]
fn default_group_verifies() {
    assert!(Group::default().verify().is_ok());
}

#[test]
fn default_resource_type_validates() {
    assert!(ResourceType::default().validate().is_ok());
}

#[test]
fn group_verify_reports_schemas_before_id() {
    let group = Group { schemas: vec![], id: "".to_string(), ..Default::default() };
    assert_eq!(
        group.verify(),
        Err(SCIMError::MissingRequiredField("schemas".to_string()))
    );
}

#[test]
fn group_verify_reports_empty_id() {
    let group = Group { id: "".to_string(), ..Default::default() };
    assert_eq!(group.verify(), Err(SCIMError::MissingRequiredField("id".to_string())));
}

#[test]
fn group_verify_reports_empty_display_name() {
    let group = Group { display_name: "".to_string(), ..Default::default() };
    assert_eq!(
        group.verify(),
        Err(SCIMError::MissingRequiredField("display_name".to_string()))
    );
}

#[test]
fn resource_type_validate_reports_first_empty_field() {
    let rt = ResourceType { name: "".to_string(), endpoint: "".to_string(), ..Default::default() };
    assert_eq!(rt.validate(), Err(SCIMError::MissingRequiredField("name".to_string())));
    let rt = ResourceType { endpoint: "".to_string(), ..Default::default() };
    assert_eq!(rt.validate(), Err(SCIMError::MissingRequiredField("endpoint".to_string())));
    let rt = ResourceType { schema: "".to_string(), ..Default::default() };
    assert_eq!(rt.validate(), Err(SCIMError::MissingRequiredField("schema".to_string())));
}

fn fully_populated_enterprise_user() -> EnterpriseUser {
    EnterpriseUser {
        employee_number: Some("701984".to_string()),
        cost_center: Some("4130".to_string()),
        organization: Some("Universal Studios".to_string()),
        division: Some("Theme Park".to_string()),
        department: Some("Tour Operations".to_string()),
        manager: Some(Manager { value: None, ref_: None, display_name: None }),
    }
}

#[test]
fn enterprise_user_presence_not_emptiness_is_checked() {
    // An empty string in a populated slot passes: presence alone counts.
    let eu = EnterpriseUser { employee_number: Some("".to_string()), ..fully_populated_enterprise_user() };
    assert!(eu.validate().is_ok());
}

#[test]
fn enterprise_user_validate_reports_first_absent_field() {
    let eu = EnterpriseUser::default();
    assert_eq!(
        eu.validate(),
        Err(SCIMError::MissingRequiredField("employee_number".to_string()))
    );
    let eu = EnterpriseUser { cost_center: None, ..fully_populated_enterprise_user() };
    assert_eq!(
        eu.validate(),
        Err(SCIMError::MissingRequiredField("cost_center".to_string()))
    );
    let eu = EnterpriseUser { manager: None, ..fully_populated_enterprise_user() };
    assert_eq!(eu.validate(), Err(SCIMError::MissingRequiredField("manager".to_string())));
}

#[test]
fn validate_enterprise_user_matches_the_method() {
    let eu = fully_populated_enterprise_user();
    assert!(validate_enterprise_user(&eu).is_ok());
    let eu = EnterpriseUser { division: None, ..fully_populated_enterprise_user() };
    assert_eq!(
        validate_enterprise_user(&eu),
        Err(SCIMError::MissingRequiredField("division".to_string()))
    );
}

#[test]
fn error_messages_render_their_kind_and_argument() {
    assert_eq!(
        SCIMError::MissingRequiredField("id".to_string()).message(),
        "Missing required field: id"
    );
    assert_eq!(
        SCIMError::SchemaNotFound("bogus".to_string()).message(),
        "Schema not found: bogus"
    );
    assert_eq!(SCIMError::InvalidJsonFormat.message(), "Invalid JSON format");
    assert_eq!(
        SCIMError::DeserializationError("missing field `schemas`".to_string()).message(),
        "Deserialization error: missing field `schemas`"
    );
    assert_eq!(
        SCIMError::ConflictError("version mismatch".to_string()).message(),
        "Conflict error: version mismatch"
    );
    assert_eq!(
        SCIMError::InvalidFieldValue("emails".to_string()).message(),
        "Invalid field value: emails"
    );
    assert_eq!(
        SCIMError::OtherError("backend down".to_string()).message(),
        "Other Error: backend down"
    );
    assert_eq!(
        SCIMError::RequestError("bad filter".to_string()).message(),
        "Request error: bad filter"
    );
    assert_eq!(
        SCIMError::ResourceTypeNotFound("Robot".to_string()).message(),
        "Resource type not found: Robot"
    );
    assert_eq!(
        SCIMError::SerializationError("boom".to_string()).message(),
        "Serialization error: boom"
    );
}
