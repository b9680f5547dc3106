//! The closed error taxonomy shared by every fallible operation in the crate.

use vstd::prelude::*;

verus! {

/// One failure kind per protocol-level error condition. Errors are always
/// returned to the caller, never accumulated and never retried.
#[derive(Debug, PartialEq)]
pub enum SCIMError {
    /// A conflicting resource state reported by a collaborator.
    ConflictError(String),
    /// Malformed or shape-incompatible JSON; carries the underlying message.
    DeserializationError(String),
    /// Reserved for value-level checks on a named field.
    InvalidFieldValue(String),
    /// Structurally unparseable input.
    InvalidJsonFormat,
    /// A required field was absent or empty; carries the field name.
    MissingRequiredField(String),
    /// Escape hatch for collaborator-reported conditions.
    OtherError(String),
    /// A malformed request reported by a collaborator.
    RequestError(String),
    /// A resource type name that the embedded set does not contain.
    ResourceTypeNotFound(String),
    /// A schema name that the embedded set does not contain.
    SchemaNotFound(String),
    /// A JSON encoding failure; carries the underlying message.
    SerializationError(String),
}

/// Mathematical model of `SCIMError`: the same variants over `Seq<char>`.
#[verifier::ext_equal]
pub enum ErrorView {
    ConflictError(Seq<char>),
    DeserializationError(Seq<char>),
    InvalidFieldValue(Seq<char>),
    InvalidJsonFormat,
    MissingRequiredField(Seq<char>),
    OtherError(Seq<char>),
    RequestError(Seq<char>),
    ResourceTypeNotFound(Seq<char>),
    SchemaNotFound(Seq<char>),
    SerializationError(Seq<char>),
}

impl DeepView for SCIMError {
    type V = ErrorView;

    open spec fn deep_view(&self) -> ErrorView {
        match self {
            SCIMError::ConflictError(m) => ErrorView::ConflictError(m@),
            SCIMError::DeserializationError(m) => ErrorView::DeserializationError(m@),
            SCIMError::InvalidFieldValue(m) => ErrorView::InvalidFieldValue(m@),
            SCIMError::InvalidJsonFormat => ErrorView::InvalidJsonFormat,
            SCIMError::MissingRequiredField(m) => ErrorView::MissingRequiredField(m@),
            SCIMError::OtherError(m) => ErrorView::OtherError(m@),
            SCIMError::RequestError(m) => ErrorView::RequestError(m@),
            SCIMError::ResourceTypeNotFound(m) => ErrorView::ResourceTypeNotFound(m@),
            SCIMError::SchemaNotFound(m) => ErrorView::SchemaNotFound(m@),
            SCIMError::SerializationError(m) => ErrorView::SerializationError(m@),
        }
    }
}

/// The human-readable rendering of an error, as a sequence of characters.
pub open spec fn spec_message(e: ErrorView) -> Seq<char> {
    match e {
        ErrorView::ConflictError(m) => "Conflict error: "@ + m,
        ErrorView::DeserializationError(m) => "Deserialization error: "@ + m,
        ErrorView::InvalidFieldValue(m) => "Invalid field value: "@ + m,
        ErrorView::InvalidJsonFormat => "Invalid JSON format"@,
        ErrorView::MissingRequiredField(m) => "Missing required field: "@ + m,
        ErrorView::OtherError(m) => "Other Error: "@ + m,
        ErrorView::RequestError(m) => "Request error: "@ + m,
        ErrorView::ResourceTypeNotFound(m) => "Resource type not found: "@ + m,
        ErrorView::SchemaNotFound(m) => "Schema not found: "@ + m,
        ErrorView::SerializationError(m) => "Serialization error: "@ + m,
    }
}

impl SCIMError {
    /// Renders the error as the message a caller would display.
    pub fn message(&self) -> (r: String)
        ensures
            r@ == spec_message(self.deep_view()),
    {
        match self {
            SCIMError::ConflictError(m) => String::from_str("Conflict error: ").concat(
                m.as_str(),
            ),
            SCIMError::DeserializationError(m) => String::from_str(
                "Deserialization error: ",
            ).concat(m.as_str()),
            SCIMError::InvalidFieldValue(m) => String::from_str("Invalid field value: ").concat(
                m.as_str(),
            ),
            SCIMError::InvalidJsonFormat => String::from_str("Invalid JSON format"),
            SCIMError::MissingRequiredField(m) => String::from_str(
                "Missing required field: ",
            ).concat(m.as_str()),
            SCIMError::OtherError(m) => String::from_str("Other Error: ").concat(m.as_str()),
            SCIMError::RequestError(m) => String::from_str("Request error: ").concat(m.as_str()),
            SCIMError::ResourceTypeNotFound(m) => String::from_str(
                "Resource type not found: ",
            ).concat(m.as_str()),
            SCIMError::SchemaNotFound(m) => String::from_str("Schema not found: ").concat(
                m.as_str(),
            ),
            SCIMError::SerializationError(m) => String::from_str("Serialization error: ").concat(
                m.as_str(),
            ),
        }
    }
}

} // verus!
