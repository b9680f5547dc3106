pub mod enterprise_user;
pub mod group;
pub mod others;
pub mod resource_types;
pub mod scim_schema;
pub mod service_provider_config;
pub mod user;
