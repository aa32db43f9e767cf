use apiguard::error::GuardError;
use apiguard::ir::SpecFormat;
use apiguard::parser::{parse_spec_format, spec_format_from_lowercase, ParserRegistry, SpecSource};

#[test]
fn detection_order() {
    let r = ParserRegistry::new();
    // looks like both OpenAPI and Swagger: OpenAPI is tried first
    assert_eq!(r.detect_format("{\"openapi\": \"3.0\", \"swagger\": \"2.0\"}"), Some(SpecFormat::OpenApi3));
    assert_eq!(r.detect_format("{\"swagger\": \"2.0\"}"), Some(SpecFormat::Swagger2));
    assert_eq!(r.detect_format("type Query { a: Int }"), Some(SpecFormat::GraphQl));
    assert_eq!(
        r.detect_format("syntax = \"proto3\";\nservice S {}"),
        Some(SpecFormat::GrpcProto)
    );
    assert_eq!(r.detect_format("hello"), None);
}

#[test]
fn default_registry_is_the_builtin_one() {
    let r = ParserRegistry::default();
    assert_eq!(r.detect_format("type Mutation { a: Int }"), Some(SpecFormat::GraphQl));
}

#[test]
fn parse_with_format_dispatches() {
    let r = ParserRegistry::new();
    let text = SpecSource::Text("type Query {\n  a: Int\n}\n".to_string());
    let spec = r.parse_with_format(&SpecFormat::GraphQl, &text).unwrap();
    assert_eq!(spec.endpoints.len(), 1);
    let proto = r.parse_with_format(&SpecFormat::GrpcProto, &text).unwrap();
    assert!(proto.endpoints.is_empty());
    assert!(matches!(
        r.parse_with_format(&SpecFormat::OpenApi3, &text),
        Err(GuardError::MalformedYaml(SpecFormat::OpenApi3))
    ));
    assert!(matches!(
        r.parse_with_format(&SpecFormat::Swagger2, &text),
        Err(GuardError::SourceMismatch(SpecFormat::Swagger2))
    ));
}

#[test]
fn format_names_and_aliases() {
    assert_eq!(parse_spec_format("openapi3").unwrap(), SpecFormat::OpenApi3);
    assert_eq!(parse_spec_format("OpenAPI").unwrap(), SpecFormat::OpenApi3);
    assert_eq!(parse_spec_format("SWAGGER2").unwrap(), SpecFormat::Swagger2);
    assert_eq!(parse_spec_format("swagger").unwrap(), SpecFormat::Swagger2);
    assert_eq!(parse_spec_format("GraphQL").unwrap(), SpecFormat::GraphQl);
    assert_eq!(parse_spec_format("gql").unwrap(), SpecFormat::GraphQl);
    assert_eq!(parse_spec_format("gRPC").unwrap(), SpecFormat::GrpcProto);
    assert_eq!(parse_spec_format("Proto").unwrap(), SpecFormat::GrpcProto);
    assert_eq!(parse_spec_format("protobuf").unwrap(), SpecFormat::GrpcProto);
}

#[test]
fn unknown_format_name_is_reported_lower_case() {
    match parse_spec_format("RAML") {
        Err(GuardError::UnknownSpecFormat(n)) => assert_eq!(n, "raml"),
        _ => panic!("expected an unknown-format error"),
    }
    assert!(matches!(spec_format_from_lowercase("GraphQL"), Err(GuardError::UnknownSpecFormat(_))));
    let e = parse_spec_format("x").unwrap_err();
    assert_eq!(e.message(), "Unknown spec format: x. Supported: openapi3, swagger2, graphql, grpc");
}

#[test]
fn error_messages() {
    assert_eq!(GuardError::JsonTooDeep.message(), "JSON nesting depth exceeds maximum of 128");
    assert_eq!(
        GuardError::NoParser(SpecFormat::GraphQl).message(),
        "No parser registered for format: GraphQL"
    );
}
