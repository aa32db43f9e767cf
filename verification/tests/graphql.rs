use apiguard::ir::{AuthMethod, HttpMethod, ParameterLocation};
use apiguard::parser::graphql::{
    extract_type_fields, parse_args, parse_fields, parse_type_definitions, GraphQlParser,
};
use apiguard::parser::{ApiParser, SpecSource};

const SAMPLE_GRAPHQL: &str = r#"
"""A pet in the store"""
type Pet {
  id: ID!
  name: String!
  tag: String
}

type Query {
  """List all pets"""
  pets(limit: Int): [Pet!]!
  """Get a specific pet"""
  pet(id: ID!): Pet
}

type Mutation {
  """Create a new pet"""
  createPet(name: String!, tag: String): Pet!
  """Delete a pet"""
  deletePet(id: ID!): Boolean!
}
"#;

fn parse(text: &str) -> apiguard::ir::ApiSpec {
    GraphQlParser.parse(&SpecSource::Text(text.to_string())).unwrap()
}

#[test]
fn detects_graphql() {
    let parser = GraphQlParser;
    assert!(parser.detect(SAMPLE_GRAPHQL));
}

#[test]
fn does_not_detect_openapi() {
    let parser = GraphQlParser;
    assert!(!parser.detect(r#"{"openapi": "3.0.0"}"#));
}

#[test]
fn parses_query_endpoints() {
    let spec = parse(SAMPLE_GRAPHQL);
    let queries: Vec<_> = spec
        .endpoints
        .iter()
        .filter(|e| e.method == HttpMethod::Get)
        .collect();
    assert_eq!(queries.len(), 2);
    assert_eq!(queries[0].path, "pets");
    assert_eq!(queries[0].parameters.len(), 1);
    assert_eq!(queries[0].parameters[0].name, "limit");
}

#[test]
fn parses_mutation_endpoints() {
    let spec = parse(SAMPLE_GRAPHQL);
    let mutations: Vec<_> = spec
        .endpoints
        .iter()
        .filter(|e| e.method == HttpMethod::Post)
        .collect();
    assert_eq!(mutations.len(), 2);
    assert_eq!(mutations[0].path, "createPet");
}

#[test]
fn parses_types_as_schemas() {
    let spec = parse(SAMPLE_GRAPHQL);
    assert_eq!(spec.schemas.len(), 1); // Pet only (Query/Mutation excluded)
    assert_eq!(spec.schemas[0].type_label, "Pet");
    assert_eq!(spec.schemas[0].properties.len(), 3);
}

#[test]
fn graphql_spec_header_fields() {
    let spec = parse(SAMPLE_GRAPHQL);
    assert_eq!(spec.name, "GraphQL API");
    assert_eq!(spec.description, "GraphQL schema");
    assert!(spec.version.is_none());
    assert!(spec.base_url.is_none());
    assert_eq!(spec.auth_methods.len(), 1);
    assert!(matches!(spec.auth_methods[0], AuthMethod::NoAuth));
}

#[test]
fn graphql_query_endpoint_details() {
    let spec = parse(SAMPLE_GRAPHQL);
    let pets = &spec.endpoints[0];
    assert_eq!(pets.summary, "List all pets");
    assert_eq!(pets.description, "List all pets");
    assert_eq!(pets.tags, vec!["Query".to_string()]);
    assert_eq!(pets.responses.len(), 1);
    assert_eq!(pets.responses[0].status_code, "200");
    assert_eq!(pets.responses[0].description, "Returns [Pet!]!");
    let limit = &pets.parameters[0];
    assert_eq!(limit.location, ParameterLocation::Query);
    assert_eq!(limit.schema_type, "Int");
    assert!(!limit.required);
    let pet = &spec.endpoints[1];
    assert_eq!(pet.path, "pet");
    assert!(pet.parameters[0].required);
}

#[test]
fn graphql_mutation_arguments_are_parameters() {
    let spec = parse(SAMPLE_GRAPHQL);
    let create = &spec.endpoints[2];
    assert_eq!(create.path, "createPet");
    let ps: Vec<(&str, &str, bool)> = create
        .parameters
        .iter()
        .map(|p| (p.name.as_str(), p.schema_type.as_str(), p.required))
        .collect();
    assert_eq!(ps, vec![("name", "String!", true), ("tag", "String", false)]);
    assert_eq!(create.tags, vec!["Mutation".to_string()]);
    assert_eq!(create.responses[0].description, "Returns Pet!");
}

#[test]
fn graphql_schema_properties() {
    let spec = parse(SAMPLE_GRAPHQL);
    let pet = &spec.schemas[0];
    assert_eq!(pet.description, "A pet in the store");
    assert_eq!(pet.properties[0].name, "id");
    assert_eq!(pet.properties[0].type_label, "ID!");
    // a property is required only when its name ends in `!`
    assert!(!pet.properties[0].required);
    assert!(pet.required_fields.is_empty());
}

#[test]
fn graphql_parse_args_reads_names_and_types() {
    let args = parse_args("name: String!, tag: String");
    assert_eq!(args.len(), 2);
    assert_eq!(args[0].name, "name");
    assert_eq!(args[0].type_label, "String!");
    assert!(args[0].required);
    assert_eq!(args[1].name, "tag");
    assert!(!args[1].required);
}

#[test]
fn graphql_parse_fields_reads_descriptions() {
    let fields = parse_fields("\n  \"\"\"Get one\"\"\"\n  pet(id: ID!): Pet\n  count: Int\n");
    assert_eq!(fields.len(), 2);
    assert_eq!(fields[0].name, "pet");
    assert_eq!(fields[0].description, "Get one");
    assert_eq!(fields[0].return_type, "Pet");
    assert_eq!(fields[0].args.len(), 1);
    assert_eq!(fields[1].name, "count");
    assert!(fields[1].args.is_empty());
}

#[test]
fn graphql_type_fields_by_name() {
    let q = extract_type_fields(SAMPLE_GRAPHQL, "Query");
    assert_eq!(q.len(), 2);
    assert_eq!(q[1].name, "pet");
    let none = extract_type_fields(SAMPLE_GRAPHQL, "Subscription");
    assert!(none.is_empty());
}

#[test]
fn graphql_type_fields_escape_the_name() {
    // `.` is escaped, so it only matches a literal dot
    let content = "type AxB {\n  a: Int\n}\n";
    assert!(extract_type_fields(content, "A.B").is_empty());
    let dotted = "type A.B {\n  a: Int\n}\n";
    assert_eq!(extract_type_fields(dotted, "A.B").len(), 1);
}

#[test]
fn graphql_root_types_are_not_schemas() {
    let types = parse_type_definitions(
        "type Subscription {\n  tick: Int\n}\ntype Query {\n  a: Int\n}\ntype Thing {\n  b: Int\n}\n",
    );
    assert_eq!(types.len(), 1);
    assert_eq!(types[0].name, "Thing");
}

#[test]
fn graphql_detection_needs_query_or_mutation() {
    assert!(!GraphQlParser.detect("type Pet { id: ID }"));
    assert!(GraphQlParser.detect("type Mutation { a: Int }"));
}

#[test]
fn graphql_rejects_document_source() {
    let doc = apiguard::parser::swagger2::SwaggerSpec {
        info: apiguard::parser::swagger2::SwaggerInfo {
            title: "t".to_string(),
            version: "1".to_string(),
            description: None,
        },
        host: None,
        base_path: None,
        paths: Vec::new(),
        definitions: Vec::new(),
        security_definitions: Vec::new(),
    };
    let r = GraphQlParser.parse(&SpecSource::Swagger2(doc));
    assert!(matches!(
        r,
        Err(apiguard::error::GuardError::SourceMismatch(apiguard::ir::SpecFormat::GraphQl))
    ));
}

#[test]
fn graphql_parser_name_and_format() {
    assert_eq!(GraphQlParser.name(), "GraphQL");
    assert_eq!(GraphQlParser.format(), apiguard::ir::SpecFormat::GraphQl);
}
