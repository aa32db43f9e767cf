//! Errors the library reports.
use crate::ir::SpecFormat;
use crate::text::{owned, put};
use vstd::prelude::*;

verus! {

/// Why a library operation refused its input.
#[derive(Debug)]
pub enum GuardError {
    /// The JSON nesting depth is over `MAX_JSON_DEPTH`.
    JsonTooDeep,
    /// A `--format` name that names no spec format (holds the name, lower-cased).
    UnknownSpecFormat(String),
    /// No registered parser detects the content's format.
    FormatNotDetected,
    /// No parser is registered for the format.
    NoParser(SpecFormat),
    /// The parser for the format was handed a source of another kind.
    SourceMismatch(SpecFormat),
    /// The spec text of the format is not a JSON document of that format.
    MalformedJson(SpecFormat),
    /// The spec text of the format is not a YAML document of that format.
    MalformedYaml(SpecFormat),
}

impl GuardError {
    /// The text of the message for the error.
    pub open spec fn message_text(&self) -> Seq<char> {
        match self {
            GuardError::JsonTooDeep => "JSON nesting depth exceeds maximum of 128"@,
            GuardError::UnknownSpecFormat(name) => "Unknown spec format: "@ + name@
                + ". Supported: openapi3, swagger2, graphql, grpc"@,
            GuardError::FormatNotDetected =>
                "Could not detect API spec format. Supported: OpenAPI 3.x, Swagger 2.0, GraphQL, gRPC Proto"@,
            GuardError::NoParser(f) => "No parser registered for format: "@ + f.text(),
            GuardError::SourceMismatch(f) => "The source handed to the parser does not suit format: "@
                + f.text(),
            GuardError::MalformedJson(f) => "Failed to parse "@ + f.text() + " JSON"@,
            GuardError::MalformedYaml(f) => "Failed to parse "@ + f.text() + " YAML"@,
        }
    }

    /// A readable message for the error.
    pub fn message(&self) -> (r: String)
        ensures
            r@ == self.message_text(),
    {
        match self {
            GuardError::JsonTooDeep => owned("JSON nesting depth exceeds maximum of 128"),
            GuardError::UnknownSpecFormat(name) => {
                let mut m = owned("Unknown spec format: ");
                put(&mut m, name.as_str());
                put(&mut m, ". Supported: openapi3, swagger2, graphql, grpc");
                m
            },
            GuardError::FormatNotDetected => owned(
                "Could not detect API spec format. Supported: OpenAPI 3.x, Swagger 2.0, GraphQL, gRPC Proto",
            ),
            GuardError::NoParser(f) => {
                let mut m = owned("No parser registered for format: ");
                let n = f.to_string();
                put(&mut m, n.as_str());
                m
            },
            GuardError::SourceMismatch(f) => {
                let mut m = owned("The source handed to the parser does not suit format: ");
                let n = f.to_string();
                put(&mut m, n.as_str());
                m
            },
            GuardError::MalformedJson(f) => {
                let mut m = owned("Failed to parse ");
                let n = f.to_string();
                put(&mut m, n.as_str());
                put(&mut m, " JSON");
                m
            },
            GuardError::MalformedYaml(f) => {
                let mut m = owned("Failed to parse ");
                let n = f.to_string();
                put(&mut m, n.as_str());
                put(&mut m, " YAML");
                m
            },
        }
    }
}

} // verus!
