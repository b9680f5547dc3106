//! Resolution of well-known schema names against the embedded canonical
//! documents.

use scim_v2::models::scim_schema::get_schemas;
use scim_v2::utils::error::SCIMError;

#[test]
fn get_schemas_returns_correct_schemas_for_valid_input() {
    let schemas = get_schemas(vec!["user"]).unwrap();
    assert_eq!(schemas.len(), 1);
    assert_eq!(schemas[0].id, "urn:ietf:params:scim:schemas:core:2.0:User");
    assert_eq!(schemas[0].name, "User");
    assert_eq!(schemas[0].description, "User Account");
    assert_eq!(schemas[0].attributes.len(), 21);
    assert_eq!(schemas[0].meta.resource_type.as_ref(), Some(&"Schema".to_string()));
    assert_eq!(
        schemas[0].meta.location.as_ref(),
        Some(&"/v2/Schemas/urn:ietf:params:scim:schemas:core:2.0:User".to_string())
    );
}

#[test]
fn get_schemas_returns_error_for_invalid_input() {
    let result = get_schemas(vec!["invalid"]);
    assert!(result.is_err());
}

#[test]
fn get_schemas_returns_error_for_missing_file() {
    let result = get_schemas(vec!["missing"]);
    assert!(result.is_err());
}

#[test]
fn get_schemas_reports_the_unknown_name() {
    assert_eq!(
        get_schemas(vec!["bogus"]),
        Err(SCIMError::SchemaNotFound("bogus".to_string()))
    );
}

#[test]
fn get_schemas_is_all_or_nothing() {
    // The first unknown name aborts the batch; no partial result comes back.
    let result = get_schemas(vec!["user", "bogus", "group"]);
    assert_eq!(result, Err(SCIMError::SchemaNotFound("bogus".to_string())));
}

#[test]
fn get_schemas_resolves_a_batch_in_request_order() {
    let schemas = get_schemas(vec!["group", "enterprise_user", "user"]).unwrap();
    assert_eq!(schemas.len(), 3);
    assert_eq!(schemas[0].name, "Group");
    assert_eq!(schemas[1].name, "EnterpriseUser");
    assert_eq!(schemas[2].name, "User");
}

#[test]
fn user_schema_attributes_start_with_user_name() {
    let schemas = get_schemas(vec!["user"]).unwrap();
    let attrs = &schemas[0].attributes;
    assert_eq!(attrs[0].name, "userName");
    assert_eq!(attrs[0].type_, "string");
    assert_eq!(attrs[0].multi_valued, false);
    assert_eq!(attrs[0].required, Some(true));
    assert_eq!(attrs[0].uniqueness, Some("server".to_string()));
    assert_eq!(attrs[1].name, "name");
    assert_eq!(attrs[1].type_, "complex");
    assert_eq!(attrs[1].sub_attributes.as_ref().unwrap().len(), 6);
}

#[test]
fn group_schema_describes_members() {
    let schemas = get_schemas(vec!["group"]).unwrap();
    let attrs = &schemas[0].attributes;
    assert_eq!(attrs.len(), 2);
    assert_eq!(attrs[0].name, "displayName");
    assert_eq!(attrs[1].name, "members");
    assert!(attrs[1].multi_valued);
    let subs = attrs[1].sub_attributes.as_ref().unwrap();
    assert_eq!(subs[0].name, "value");
    assert_eq!(subs[1].name, "$ref");
    assert_eq!(subs[2].name, "type");
}

#[test]
fn enterprise_user_schema_lists_the_six_attributes() {
    let schemas = get_schemas(vec!["enterprise_user"]).unwrap();
    let names: Vec<&str> = schemas[0].attributes.iter().map(|a| a.name.as_str()).collect();
    assert_eq!(
        names,
        vec!["employeeNumber", "costCenter", "organization", "division", "department", "manager"]
    );
}
