//! Turns a declarative description of an application's error cases (a
//! taxonomy) into uniform, wire-ready error descriptors.
//!
//! A [`TaxonomySchema`](schema::TaxonomySchema) is built and validated once at
//! startup; afterwards every well-formed error occurrence resolves, totally and
//! deterministically, to an [`ApiError`]: an HTTP-style status code, a stable
//! machine-readable `kind`, a human-readable `message`, and optional
//! structured `details`.

use vstd::prelude::*;

pub mod catalog;
pub mod laws;
pub mod payload;
pub mod resolve;
pub mod schema;
pub mod shape;
pub mod status;
pub mod template;
pub mod text;
pub mod translate;
pub mod value;

verus! {

/// A structured error descriptor, ready to be sent as an HTTP response.
///
/// The numeric `code` selects the HTTP status line; `kind`, `message` and
/// `details` form the serialized body.
#[derive(Debug, Clone)]
pub struct ApiError {
    /// A machine-readable error type or category.
    pub kind: String,
    /// The HTTP status code associated with this error.
    pub code: u16,
    /// A human-readable message describing the error.
    pub message: String,
    /// Optional structured payload attached to the descriptor.
    pub details: Option<serde_json::Value>,
}

/// Mathematical model of an [`ApiError`]: the string fields as character
/// sequences, the other fields as they are.
pub ghost struct ApiErrorModel {
    pub kind: Seq<char>,
    pub code: u16,
    pub message: Seq<char>,
    pub details: Option<serde_json::Value>,
}

impl View for ApiError {
    type V = ApiErrorModel;

    open spec fn view(&self) -> ApiErrorModel {
        ApiErrorModel {
            kind: self.kind@,
            code: self.code,
            message: self.message@,
            details: self.details,
        }
    }
}

impl ApiError {
    /// The textual form of the descriptor: the kind, a colon and a space,
    /// then the message.
    pub fn display_string(&self) -> (r: String)
        ensures
            r@ == self.kind@ + ": "@ + self.message@,
    {
        let mut s = self.kind.clone();
        vstd::string::StringExecFns::append(&mut s, ": ");
        vstd::string::StringExecFns::append(&mut s, self.message.as_str());
        s
    }

    /// Creates a new `ApiError` from its four components.
    pub fn new(code: u16, kind: &str, message: String, details: Option<serde_json::Value>) -> (r:
        Self)
        ensures
            r.code == code,
            r.kind@ == kind@,
            r.message@ == message@,
            r.details == details,
    {
        Self { kind: kind.to_owned(), message, code, details }
    }
}

/// A trait for types that can be converted into an `ApiError`.
///
/// The host application implements this for its own error types, typically by
/// delegating to a pre-built resolution rule.
pub trait AsApiErrorTrait {
    /// Converts the type into an `ApiError`.
    fn as_api_error(&self) -> ApiError;
}

} // verus!
