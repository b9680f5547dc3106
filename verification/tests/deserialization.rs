//! The deserialization behaviour of the resource types, over the wire
//! documents the protocol describes.

use scim_v2::models::group::Group;
use scim_v2::models::others::{ListResponse, Resource};
use scim_v2::models::resource_types::ResourceType;
use scim_v2::models::service_provider_config::ServiceProviderConfig;
use scim_v2::models::user::User;
use scim_v2::utils::error::SCIMError;

#[test]
fn group_deserialization_succeeds_for_valid_full_json() {
    let json_data = r#"   {
         "schemas": ["urn:ietf:params:scim:schemas:core:2.0:Group"],
         "id": "e9e30dba-f08f-4109-8486-d5c6a331660a",
         "displayName": "Tour Guides",
         "members": [
           {
             "value": "2819c223-7f76-453a-919d-413861904646",
             "$ref":
       "https://example.com/v2/Users/2819c223-7f76-453a-919d-413861904646",
             "display": "Babs Jensen"
           },
           {
             "value": "902c246b-6245-4190-8e05-00816be7344a",
             "$ref":
       "https://example.com/v2/Users/902c246b-6245-4190-8e05-00816be7344a",
             "display": "Mandy Pepperidge"
           }
         ],
         "meta": {
           "resourceType": "Group",
           "created": "2010-01-23T04:56:22Z",
           "lastModified": "2011-05-13T04:42:34Z",
           "version": "W\/\"3694e05e9dff592\"",
           "location":
       "https://example.com/v2/Groups/e9e30dba-f08f-4109-8486-d5c6a331660a"
         }
       }"#;

    let group: Result<Group, SCIMError> = Group::deserialize(json_data);

    if let Err(e) = &group {
        println!("Deserialization failed: {:?}", e);
    }
    assert!(group.is_ok());
    let group = group.unwrap();
    assert_eq!(group.schemas, vec!["urn:ietf:params:scim:schemas:core:2.0:Group"]);
    assert_eq!(group.id, "e9e30dba-f08f-4109-8486-d5c6a331660a");
    assert_eq!(group.display_name, "Tour Guides");

    // Check members
    assert_eq!(group.members.as_ref().unwrap().len(), 2);
    assert_eq!(
        group.members.as_ref().unwrap()[0].value,
        Some("2819c223-7f76-453a-919d-413861904646".to_string())
    );
    assert_eq!(group.members.as_ref().unwrap()[0].display, Some("Babs Jensen".to_string()));
    assert_eq!(
        group.members.as_ref().unwrap()[1].value,
        Some("902c246b-6245-4190-8e05-00816be7344a".to_string())
    );
    assert_eq!(group.members.as_ref().unwrap()[1].display, Some("Mandy Pepperidge".to_string()));

    // Check meta
    let meta = group.meta.unwrap();
    assert_eq!(meta.resource_type, Some("Group".to_string()));
    assert_eq!(meta.created, Some("2010-01-23T04:56:22Z".to_string()));
    assert_eq!(meta.last_modified, Some("2011-05-13T04:42:34Z".to_string()));
    assert_eq!(meta.version, Some("W/\"3694e05e9dff592\"".to_string()));
    assert_eq!(
        meta.location,
        Some("https://example.com/v2/Groups/e9e30dba-f08f-4109-8486-d5c6a331660a".to_string())
    );
}

#[test]
fn group_deserialization_succeeds_for_valid_json() {
    let json_data = r#"{
        "schemas": ["urn:ietf:params:scim:schemas:core:2.0:Group"],
        "id": "e9e30dba-f08f-4109-8486-d5c6a331660a",
        "displayName": "Tour Guides",
        "meta": {
           "resourceType": "Group",
           "created": "2010-01-23T04:56:22Z",
           "lastModified": "2011-05-13T04:42:34Z",
           "version": "W\/\"3694e05e9dff592\"",
           "location": "https://example.com/v2/Groups/e9e30dba-f08f-4109-8486-d5c6a331660a"
        }
    }"#;

    let group: Result<Group, SCIMError> = Group::deserialize(json_data);

    if let Err(e) = &group {
        println!("Deserialization failed: {:?}", e);
    }
    assert!(group.is_ok());
    let group = group.unwrap();
    assert_eq!(group.schemas, vec!["urn:ietf:params:scim:schemas:core:2.0:Group"]);
    assert_eq!(group.id, "e9e30dba-f08f-4109-8486-d5c6a331660a");
    assert_eq!(group.display_name, "Tour Guides");
}

#[test]
fn group_deserialization_fails_for_invalid_json() {
    let json_data = r#"{
        "schemas": ["urn:ietf:params:scim:schemas:core:2.0:Group"],
        "id": "e9e30dba-f08f-4109-8486-d5c6a331660a",
        "displayName": 12345
    },
    "meta": {
           "resourceType": "Group",
           "created": "2010-01-23T04:56:22Z",
           "lastModified": "2011-05-13T04:42:34Z",
           "version": "W\/\"3694e05e9dff592\"",
           "location": "https://example.com/v2/Groups/e9e30dba-f08f-4109-8486-d5c6a331660a"
        }"#;

    let group: Result<Group, SCIMError> = Group::deserialize(json_data);

    assert!(group.is_err());
}

#[test]
fn group_deserialization_handles_missing_optional_fields() {
    let json_data = r#"{
        "schemas": ["urn:ietf:params:scim:schemas:core:2.0:Group"],
        "id": "e9e30dba-f08f-4109-8486-d5c6a331660a",
        "displayName": "Tour Guides"
    }"#;

    let group: Result<Group, SCIMError> = Group::deserialize(json_data);

    assert!(group.is_ok());
    let group = group.unwrap();
    assert_eq!(group.schemas, vec!["urn:ietf:params:scim:schemas:core:2.0:Group"]);
    assert_eq!(group.id, "e9e30dba-f08f-4109-8486-d5c6a331660a");
    assert_eq!(group.display_name, "Tour Guides");
    assert!(group.members.is_none());
    assert!(group.meta.is_none());
}

#[test]
fn resource_type_deserialization_user() {
    let json_data = r#"{
            "schemas":
            [
                "urn:ietf:params:scim:schemas:core:2.0:ResourceType"
            ],
            "id": "User",
            "name": "User",
            "endpoint": "/Users",
            "description": "User Account",
            "schema": "urn:ietf:params:scim:schemas:core:2.0:User",
            "schemaExtensions":
            [
                {
                    "schema": "urn:ietf:params:scim:schemas:extension:enterprise:2.0:User",
                    "required": true
                }
            ],
            "meta":
            {
                "location": "https://example.com/v2/ResourceTypes/User",
                "resourceType": "ResourceType"
            }
        }"#;

    let resource_type: Result<ResourceType, SCIMError> = ResourceType::deserialize(json_data);

    if let Err(e) = &resource_type {
        println!("Deserialization failed: {:?}", e);
    }
    assert!(resource_type.is_ok());
    let resource_type = resource_type.unwrap();
    assert_eq!(resource_type.id, Some("User".to_string()));
    assert_eq!(resource_type.name, "User");
    assert_eq!(resource_type.endpoint, "/Users");
    assert_eq!(resource_type.description, Some("User Account".to_string()));
    assert_eq!(resource_type.schema, "urn:ietf:params:scim:schemas:core:2.0:User");
    let schema_extensions = resource_type.schema_extensions.unwrap();
    assert_eq!(schema_extensions.len(), 1);
    let schema_extension = &schema_extensions[0];
    assert_eq!(
        schema_extension.schema,
        "urn:ietf:params:scim:schemas:extension:enterprise:2.0:User"
    );
    assert_eq!(schema_extension.required, true);
}

#[test]
fn resource_type_deserialization_group() {
    let json_data = r#"{
            "schemas":
            [
                "urn:ietf:params:scim:schemas:core:2.0:ResourceType"


            ],
            "id": "Group",
            "name": "Group",
            "endpoint": "/Groups",
            "description": "Group",
            "schema": "urn:ietf:params:scim:schemas:core:2.0:Group",
            "meta":
            {
                "location": "https://example.com/v2/ResourceTypes/Group",
                "resourceType": "ResourceType"
            }
        }"#;

    let resource_type: Result<ResourceType, SCIMError> = ResourceType::deserialize(json_data);

    if let Err(e) = &resource_type {
        println!("Deserialization failed: {:?}", e);
    }
    assert!(resource_type.is_ok());
    let resource_type = resource_type.unwrap();
    assert_eq!(resource_type.id, Some("Group".to_string()));
    assert_eq!(resource_type.name, "Group");
    assert_eq!(resource_type.endpoint, "/Groups");
    assert_eq!(resource_type.description, Some("Group".to_string()));
    assert_eq!(resource_type.schema, "urn:ietf:params:scim:schemas:core:2.0:Group");
}

#[test]
fn service_provider_config_deserialization() {
    let json_data = r#"{
        "schemas": ["urn:ietf:params:scim:schemas:core:2.0:ServiceProviderConfig"],
        "documentationUri": "http://example.com/help/scim.html",
        "patch": { "supported": true },
        "bulk": {
            "supported": true,
            "maxOperations": 1000,
            "maxPayloadSize": 1048576
        },
        "filter": {
            "supported": true,
            "maxResults": 200
        },
        "changePassword": { "supported": true },
        "sort": { "supported": true },
        "etag": { "supported": true },
        "authenticationSchemes": [
            {
                "name": "OAuth Bearer Token",
                "description": "Authentication scheme using the OAuth Bearer Token Standard",
                "specUri": "http://www.rfc-editor.org/info/rfc6750",
                "documentationUri": "http://example.com/help/oauth.html"
            },
            {
                "name": "HTTP Basic",
                "description": "Authentication scheme using the HTTP Basic Standard",
                "specUri": "http://www.rfc-editor.org/info/rfc2617",
                "documentationUri": "http://example.com/help/httpBasic.html"
            }
        ]
    }"#;

    let config: Result<ServiceProviderConfig, SCIMError> =
        ServiceProviderConfig::deserialize(json_data);

    if let Err(e) = &config {
        println!("Deserialization failed: {:?}", e);
    }
    assert!(config.is_ok());
    let config = config.unwrap();
    assert_eq!(config.documentation_uri, Some("http://example.com/help/scim.html".to_string()));
    assert_eq!(config.patch.supported, true);
    assert_eq!(config.bulk.supported, true);
    assert_eq!(config.bulk.max_operations, 1000);
    assert_eq!(config.bulk.max_payload_size, 1048576);
    assert_eq!(config.filter.supported, true);
    assert_eq!(config.filter.max_results, 200);
    assert_eq!(config.change_password.supported, true);
    assert_eq!(config.sort.supported, true);
    assert_eq!(config.etag.supported, true);
    assert_eq!(config.authentication_schemes.len(), 2);
    let oauth_scheme = &config.authentication_schemes[0];
    assert_eq!(oauth_scheme.name, "OAuth Bearer Token");
    assert_eq!(
        oauth_scheme.description,
        "Authentication scheme using the OAuth Bearer Token Standard"
    );
    assert_eq!(oauth_scheme.spec_uri, "http://www.rfc-editor.org/info/rfc6750");
    assert_eq!(oauth_scheme.documentation_uri, "http://example.com/help/oauth.html");
    let http_scheme = &config.authentication_schemes[1];
    assert_eq!(http_scheme.name, "HTTP Basic");
    assert_eq!(http_scheme.description, "Authentication scheme using the HTTP Basic Standard");
    assert_eq!(http_scheme.spec_uri, "http://www.rfc-editor.org/info/rfc2617");
    assert_eq!(http_scheme.documentation_uri, "http://example.com/help/httpBasic.html");
}

#[test]
fn user_deserialization_reads_enterprise_extension_by_urn() {
    let json_data = r#"{
        "schemas": [
            "urn:ietf:params:scim:schemas:core:2.0:User",
            "urn:ietf:params:scim:schemas:extension:enterprise:2.0:User"
        ],
        "id": "2819c223-7f76-453a-919d-413861904646",
        "userName": "bjensen@example.com",
        "name": { "formatted": "Ms. Barbara J Jensen, III", "familyName": "Jensen" },
        "active": true,
        "emails": [ { "value": "bjensen@example.com", "type": "work", "primary": true } ],
        "urn:ietf:params:scim:schemas:extension:enterprise:2.0:User": {
            "employeeNumber": "701984",
            "costCenter": "4130",
            "organization": "Universal Studios",
            "division": "Theme Park",
            "department": "Tour Operations",
            "manager": { "value": "26118915-6090-4610-87e4-49d8ca9f808d", "displayName": "John Smith" }
        }
    }"#;

    let user = User::deserialize(json_data).unwrap();
    assert_eq!(user.user_name, "bjensen@example.com");
    assert_eq!(user.schemas.len(), 2);
    assert_eq!(user.name.as_ref().unwrap().family_name, Some("Jensen".to_string()));
    assert_eq!(user.active, Some(true));
    let emails = user.emails.as_ref().unwrap();
    assert_eq!(emails.len(), 1);
    assert_eq!(emails[0].value, Some("bjensen@example.com".to_string()));
    assert_eq!(emails[0].primary, Some(true));
    let ext = user.enterprise_user.as_ref().unwrap();
    assert_eq!(ext.employee_number, Some("701984".to_string()));
    assert_eq!(ext.department, Some("Tour Operations".to_string()));
    assert_eq!(
        ext.manager.as_ref().unwrap().display_name,
        Some("John Smith".to_string())
    );
}

#[test]
fn user_deserialization_requires_user_name() {
    let json_data = r#"{ "schemas": ["urn:ietf:params:scim:schemas:core:2.0:User"] }"#;
    let user = User::deserialize(json_data);
    assert!(matches!(user, Err(SCIMError::DeserializationError(_))));
}

#[test]
fn list_response_polymorphic_elements_resolve_in_order() {
    let json_data = r#"{
        "itemsPerPage": 2,
        "totalResults": 2,
        "startIndex": 1,
        "schemas": ["urn:ietf:params:scim:api:messages:2.0:ListResponse"],
        "Resources": [
            {
                "schemas": ["urn:ietf:params:scim:schemas:core:2.0:User"],
                "id": "2819c223-7f76-453a-919d-413861904646",
                "userName": "bjensen@example.com"
            },
            {
                "schemas": ["urn:ietf:params:scim:schemas:core:2.0:Group"],
                "id": "e9e30dba-f08f-4109-8486-d5c6a331660a",
                "displayName": "Tour Guides"
            }
        ]
    }"#;

    let list = ListResponse::deserialize(json_data).unwrap();
    assert_eq!(list.items_per_page, 2);
    assert_eq!(list.total_results, 2);
    assert_eq!(list.start_index, 1);
    assert_eq!(list.resources.len(), 2);
    match &list.resources[0] {
        Resource::User(u) => assert_eq!(u.user_name, "bjensen@example.com"),
        other => panic!("first element resolved to the wrong variant: {:?}", other),
    }
    match &list.resources[1] {
        Resource::Group(g) => assert_eq!(g.display_name, "Tour Guides"),
        other => panic!("second element resolved to the wrong variant: {:?}", other),
    }
}

#[test]
fn group_display_name_as_number_is_a_deserialization_error() {
    let json_data = r#"{
        "schemas": ["urn:ietf:params:scim:schemas:core:2.0:Group"],
        "id": "e9e30dba-f08f-4109-8486-d5c6a331660a",
        "displayName": 12345
    }"#;
    let group = Group::deserialize(json_data);
    match group {
        Err(SCIMError::DeserializationError(_)) => {},
        other => panic!("expected a deserialization error, got {:?}", other),
    }
}

#[test]
fn group_missing_required_wire_field_is_a_deserialization_error() {
    let json_data = r#"{ "id": "x", "displayName": "y" }"#;
    let group = Group::deserialize(json_data);
    assert_eq!(
        group,
        Err(SCIMError::DeserializationError("missing field `schemas`".to_string()))
    );
}

#[test]
fn structurally_unparseable_input_is_a_deserialization_error() {
    let group = Group::deserialize("this is not json");
    assert!(matches!(group, Err(SCIMError::DeserializationError(_))));
}

#[test]
fn enterprise_user_deserialization_accepts_empty_object() {
    let eu = scim_v2::models::enterprise_user::EnterpriseUser::deserialize("{}").unwrap();
    assert!(eu.employee_number.is_none());
    assert!(eu.manager.is_none());
}

#[test]
fn try_from_matches_deserialize() {
    let group_json = r#"{
        "schemas": ["urn:ietf:params:scim:schemas:core:2.0:Group"],
        "id": "e9e30dba-f08f-4109-8486-d5c6a331660a",
        "displayName": "Tour Guides"
    }"#;
    assert_eq!(Group::try_from(group_json), Group::deserialize(group_json));

    let user_json =
        r#"{"schemas": ["urn:ietf:params:scim:schemas:core:2.0:User"], "userName": "jdoe@example.com"}"#;
    let user = User::try_from(user_json).unwrap();
    assert_eq!(user.user_name, "jdoe@example.com");

    let eu = scim_v2::models::enterprise_user::EnterpriseUser::try_from(
        r#"{"employeeNumber": "701984"}"#,
    )
    .unwrap();
    assert_eq!(eu.employee_number, Some("701984".to_string()));

    assert!(ResourceType::try_from("not json").is_err());
    assert!(scim_v2::models::scim_schema::Schema::try_from("{}").is_err());
}
