//! Serialization round trips: for every resource kind, deserializing a
//! serialized value yields the value back, with all optional slots absent
//! and with everything populated.

use scim_v2::models::enterprise_user::{EnterpriseUser, Manager};
use scim_v2::models::group::{Group, Member};
use scim_v2::models::others::{ListQuery, ListResponse, Resource, SearchRequest};
use scim_v2::models::resource_types::{ResourceType, SchemaExtension};
use scim_v2::models::scim_schema::{get_schemas, Meta};
use scim_v2::models::service_provider_config::{
    AuthenticationScheme, Bulk, Filter, ServiceProviderConfig, Supported,
};
use scim_v2::models::user::{Address, Email, Name, User};

fn sample_meta() -> Meta {
    Meta {
        resource_type: Some("Group".to_string()),
        created: Some("2010-01-23T04:56:22Z".to_string()),
        last_modified: Some("2011-05-13T04:42:34Z".to_string()),
        version: Some("W/\"3694e05e9dff592\"".to_string()),
        location: Some("https://example.com/v2/Groups/e9e".to_string()),
    }
}

#[test]
fn group_round_trip_all_fields() {
    let group = Group {
        schemas: vec!["urn:ietf:params:scim:schemas:core:2.0:Group".to_string()],
        id: "e9e30dba-f08f-4109-8486-d5c6a331660a".to_string(),
        display_name: "Tour Guides".to_string(),
        members: Some(vec![
            Member {
                value: Some("2819c223".to_string()),
                ref_: Some("https://example.com/v2/Users/2819c223".to_string()),
                type_: Some("User".to_string()),
                display: Some("Babs Jensen".to_string()),
            },
            Member { value: None, ref_: None, type_: None, display: None },
        ]),
        meta: Some(sample_meta()),
    };
    let text = group.serialize().unwrap();
    assert_eq!(Group::deserialize(&text).unwrap(), group);
}

#[test]
fn group_round_trip_optional_fields_absent() {
    let group = Group::default();
    let text = group.serialize().unwrap();
    assert_eq!(Group::deserialize(&text).unwrap(), group);
}

#[test]
fn group_default_serializes_to_expected_text() {
    let text = Group::default().serialize().unwrap();
    assert_eq!(
        text,
        "{\"schemas\":[\"urn:ietf:params:scim:schemas:core:2.0:Group\"],\
         \"id\":\"default_id\",\"displayName\":\"default_display_name\",\
         \"members\":null,\"meta\":null}"
    );
}

#[test]
fn enterprise_user_round_trip() {
    let eu = EnterpriseUser {
        employee_number: Some("701984".to_string()),
        cost_center: Some("4130".to_string()),
        organization: Some("Universal Studios".to_string()),
        division: Some("Theme Park".to_string()),
        department: Some("Tour Operations".to_string()),
        manager: Some(Manager {
            value: Some("26118915".to_string()),
            ref_: Some("../Users/26118915".to_string()),
            display_name: Some("John Smith".to_string()),
        }),
    };
    let text = eu.serialize().unwrap();
    assert_eq!(EnterpriseUser::deserialize(&text).unwrap(), eu);

    let bare = EnterpriseUser::default();
    let text = bare.serialize().unwrap();
    assert_eq!(EnterpriseUser::deserialize(&text).unwrap(), bare);
}

#[test]
fn resource_type_round_trip() {
    let rt = ResourceType {
        id: Some("User".to_string()),
        name: "User".to_string(),
        description: Some("User Account".to_string()),
        endpoint: "/Users".to_string(),
        schema: "urn:ietf:params:scim:schemas:core:2.0:User".to_string(),
        schema_extensions: Some(vec![SchemaExtension {
            schema: "urn:ietf:params:scim:schemas:extension:enterprise:2.0:User".to_string(),
            required: true,
        }]),
    };
    let text = rt.serialize().unwrap();
    assert_eq!(ResourceType::deserialize(&text).unwrap(), rt);

    let bare = ResourceType::default();
    let text = bare.serialize().unwrap();
    assert_eq!(ResourceType::deserialize(&text).unwrap(), bare);
}

#[test]
fn schema_round_trip_of_canonical_documents() {
    for name in ["user", "enterprise_user", "group"] {
        let schemas = get_schemas(vec![name]).unwrap();
        let schema = &schemas[0];
        let text = schema.serialize().unwrap();
        let back = scim_v2::models::scim_schema::Schema::deserialize(&text).unwrap();
        assert_eq!(&back, schema);
    }
}

#[test]
fn service_provider_config_round_trip() {
    let config = ServiceProviderConfig {
        documentation_uri: Some("http://example.com/help/scim.html".to_string()),
        patch: Supported { supported: true },
        bulk: Bulk { supported: true, max_operations: 1000, max_payload_size: 1048576 },
        filter: Filter { supported: true, max_results: 200 },
        change_password: Supported { supported: false },
        sort: Supported { supported: true },
        etag: Supported { supported: false },
        authentication_schemes: vec![AuthenticationScheme {
            name: "OAuth Bearer Token".to_string(),
            description: "Authentication scheme using the OAuth Bearer Token Standard".to_string(),
            spec_uri: "http://www.rfc-editor.org/info/rfc6750".to_string(),
            documentation_uri: "http://example.com/help/oauth.html".to_string(),
        }],
    };
    let text = config.serialize().unwrap();
    assert_eq!(ServiceProviderConfig::deserialize(&text).unwrap(), config);

    let bare = ServiceProviderConfig::default();
    let text = bare.serialize().unwrap();
    assert_eq!(ServiceProviderConfig::deserialize(&text).unwrap(), bare);
}

#[test]
fn user_round_trip_all_fields() {
    let user = User {
        schemas: vec![
            "urn:ietf:params:scim:schemas:core:2.0:User".to_string(),
            "urn:ietf:params:scim:schemas:extension:enterprise:2.0:User".to_string(),
        ],
        id: Some("2819c223".to_string()),
        user_name: "bjensen@example.com".to_string(),
        name: Some(Name {
            formatted: Some("Ms. Barbara J Jensen, III".to_string()),
            family_name: Some("Jensen".to_string()),
            given_name: Some("Barbara".to_string()),
            middle_name: None,
            honorific_prefix: Some("Ms.".to_string()),
            honorific_suffix: Some("III".to_string()),
        }),
        display_name: Some("Babs Jensen".to_string()),
        active: Some(true),
        emails: Some(vec![Email {
            value: Some("bjensen@example.com".to_string()),
            type_: Some("work".to_string()),
            primary: Some(true),
            display: None,
        }]),
        addresses: Some(vec![Address {
            formatted: Some("100 Universal City Plaza".to_string()),
            street_address: Some("100 Universal City Plaza".to_string()),
            locality: Some("Hollywood".to_string()),
            region: Some("CA".to_string()),
            postal_code: Some("91608".to_string()),
            country: Some("USA".to_string()),
            type_: Some("work".to_string()),
        }]),
        enterprise_user: Some(EnterpriseUser {
            employee_number: Some("701984".to_string()),
            cost_center: None,
            organization: None,
            division: None,
            department: None,
            manager: Some(Manager { value: None, ref_: None, display_name: None }),
        }),
        meta: Some(sample_meta()),
    };
    let text = user.serialize().unwrap();
    assert_eq!(User::deserialize(&text).unwrap(), user);
}

#[test]
fn user_round_trip_optional_fields_absent() {
    let user = User::default();
    let text = user.serialize().unwrap();
    assert_eq!(User::deserialize(&text).unwrap(), user);
}

#[test]
fn list_response_round_trip_preserves_variants_and_order() {
    let list = ListResponse {
        items_per_page: 2,
        total_results: 7,
        start_index: 1,
        schemas: vec!["urn:ietf:params:scim:api:messages:2.0:ListResponse".to_string()],
        resources: vec![
            Resource::User(Box::new(User {
                user_name: "bjensen@example.com".to_string(),
                ..Default::default()
            })),
            Resource::Group(Box::new(Group::default())),
        ],
    };
    let text = list.serialize().unwrap();
    let back = ListResponse::deserialize(&text).unwrap();
    assert_eq!(back, list);
    assert!(matches!(back.resources[0], Resource::User(_)));
    assert!(matches!(back.resources[1], Resource::Group(_)));
}

#[test]
fn list_response_round_trip_empty() {
    let list = ListResponse::default();
    let text = list.serialize().unwrap();
    assert_eq!(ListResponse::deserialize(&text).unwrap(), list);
}

#[test]
fn schema_resource_round_trips_inside_a_list() {
    let schema = get_schemas(vec!["group"]).unwrap().remove(0);
    let list = ListResponse {
        resources: vec![Resource::Schema(Box::new(schema))],
        ..Default::default()
    };
    let text = list.serialize().unwrap();
    let back = ListResponse::deserialize(&text).unwrap();
    assert_eq!(back, list);
    assert!(matches!(back.resources[0], Resource::Schema(_)));
}

#[test]
fn search_request_round_trip() {
    let req = SearchRequest {
        schemas: vec!["urn:ietf:params:scim:api:messages:2.0:SearchRequest".to_string()],
        attributes: Some(vec!["userName".to_string(), "displayName".to_string()]),
        excluded_attributes: None,
        filter: "userName sw \"J\"".to_string(),
        start_index: 1,
        count: 10,
    };
    let text = req.serialize().unwrap();
    assert_eq!(SearchRequest::deserialize(&text).unwrap(), req);

    let bare = SearchRequest::default();
    let text = bare.serialize().unwrap();
    assert_eq!(SearchRequest::deserialize(&text).unwrap(), bare);
}

#[test]
fn list_query_round_trip() {
    let q = ListQuery { filter: "meta.resourceType eq \"User\"".to_string(), start_index: 4, count: None };
    let text = q.serialize().unwrap();
    assert_eq!(ListQuery::deserialize(&text).unwrap(), q);

    let bare = ListQuery::default();
    let text = bare.serialize().unwrap();
    assert_eq!(ListQuery::deserialize(&text).unwrap(), bare);
}
