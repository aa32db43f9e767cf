use apiguard::ir::{AuthMethod, HttpMethod, ParameterLocation};
use apiguard::parser::openapi3::{
    convert_schema, extract_auth_methods, schema_type_name, ApiKeyLocation, ComponentsObject,
    OpenApi3Parser, OpenApiDocument, OperationObject, ParameterFormat, ParameterObject, PathItemObject,
    PropertySchema, RefOr, RequestBodyObject, ResponseObject, ResponsesObject, SchemaObject,
    SchemaType, SecuritySchemeObject,
};
use apiguard::parser::{ApiParser, SpecSource};

const PETSTORE_OPENAPI3: &str = r#"{
  "openapi": "3.0.3",
  "info": {
    "title": "Petstore",
    "version": "1.0.0",
    "description": "A sample API for pets"
  },
  "servers": [{ "url": "https://petstore.example.com/v1" }],
  "paths": {
    "/pets": {
      "get": {
        "summary": "List all pets",
        "operationId": "listPets",
        "tags": ["pets"],
        "parameters": [
          {
            "name": "limit",
            "in": "query",
            "required": false,
            "schema": { "type": "integer" },
            "description": "How many items to return"
          }
        ],
        "responses": {
          "200": { "description": "A list of pets" }
        }
      },
      "post": {
        "summary": "Create a pet",
        "operationId": "createPet",
        "tags": ["pets"],
        "requestBody": {
          "required": true,
          "content": {
            "application/json": {
              "schema": {
                "type": "object",
                "required": ["name"],
                "properties": {
                  "name": { "type": "string", "description": "Pet name" },
                  "tag": { "type": "string", "description": "Optional tag" }
                }
              }
            }
          }
        },
        "responses": {
          "201": { "description": "Pet created" }
        }
      }
    },
    "/pets/{petId}": {
      "get": {
        "summary": "Info for a specific pet",
        "operationId": "showPetById",
        "tags": ["pets"],
        "parameters": [
          {
            "name": "petId",
            "in": "path",
            "required": true,
            "schema": { "type": "string" },
            "description": "The id of the pet"
          }
        ],
        "responses": {
          "200": { "description": "Expected response to a valid request" }
        }
      }
    }
  },
  "components": {
    "schemas": {
      "Pet": {
        "type": "object",
        "required": ["id", "name"],
        "properties": {
          "id": { "type": "integer", "description": "Unique identifier" },
          "name": { "type": "string", "description": "Pet name" },
          "tag": { "type": "string", "description": "Optional tag" }
        }
      }
    },
    "securitySchemes": {
      "bearerAuth": {
        "type": "http",
        "scheme": "bearer"
      }
    }
  }
}"#;

fn parse(content: &str) -> apiguard::ir::ApiSpec {
    OpenApi3Parser.parse(&SpecSource::Text(content.to_string())).unwrap()
}

// --- tests ------------------------------------------------------------------

#[test]
fn detects_openapi3() {
    let parser = OpenApi3Parser;
    assert!(parser.detect(PETSTORE_OPENAPI3));
}

#[test]
fn parses_petstore_info() {
    let spec = parse(PETSTORE_OPENAPI3);
    assert_eq!(spec.name, "Petstore");
    assert_eq!(spec.version, Some("1.0.0".to_string()));
    assert_eq!(spec.base_url, Some("https://petstore.example.com/v1".to_string()));
}

#[test]
fn parses_petstore_endpoints() {
    let spec = parse(PETSTORE_OPENAPI3);
    assert_eq!(spec.endpoints.len(), 3); // GET /pets, POST /pets, GET /pets/{petId}

    let get_pets = spec.endpoints.iter().find(|e| e.path == "/pets" && e.method == HttpMethod::Get).unwrap();
    assert_eq!(get_pets.summary, "List all pets");
    assert_eq!(get_pets.parameters.len(), 1);
    assert_eq!(get_pets.parameters[0].name, "limit");
}

#[test]
fn parses_petstore_auth() {
    let spec = parse(PETSTORE_OPENAPI3);
    assert!(spec.auth_methods.iter().any(|a| matches!(a, AuthMethod::Bearer)));
}

#[test]
fn parses_petstore_schemas() {
    let spec = parse(PETSTORE_OPENAPI3);
    assert_eq!(spec.schemas.len(), 1);
    assert_eq!(spec.schemas[0].type_label, "Pet");
    assert_eq!(spec.schemas[0].properties.len(), 3);
}

#[test]
fn openapi3_request_body_schema() {
    let spec = parse(PETSTORE_OPENAPI3);
    let post = &spec.endpoints[1];
    assert_eq!(post.method, HttpMethod::Post);
    let body = post.request_body.as_ref().unwrap();
    assert_eq!(body.content_type, "application/json");
    assert!(body.required);
    let schema = body.schema.as_ref().unwrap();
    assert_eq!(schema.type_label, "RequestBody");
    assert_eq!(schema.properties[0].name, "name");
    assert!(schema.properties[0].required);
    assert!(!schema.properties[1].required);
    assert_eq!(post.responses[0].status_code, "201");
}

#[test]
fn openapi3_parameter_and_schema_details() {
    let spec = parse(PETSTORE_OPENAPI3);
    let by_id = &spec.endpoints[2];
    assert_eq!(by_id.path, "/pets/{petId}");
    assert_eq!(by_id.parameters[0].location, ParameterLocation::Path);
    assert_eq!(by_id.parameters[0].schema_type, "string");
    assert!(by_id.parameters[0].required);
    let pet = &spec.schemas[0];
    assert_eq!(pet.required_fields, vec!["id".to_string(), "name".to_string()]);
    assert_eq!(pet.properties[0].type_label, "integer");
    assert_eq!(pet.properties[0].description, "Unique identifier");
    assert_eq!(spec.description, "A sample API for pets");
    assert_eq!(spec.endpoints[0].tags, vec!["pets".to_string()]);
}

fn plain_doc() -> OpenApiDocument {
    OpenApiDocument {
        title: "T".to_string(),
        version: "2".to_string(),
        description: None,
        server_urls: Vec::new(),
        paths: Vec::new(),
        components: None,
    }
}

#[test]
fn openapi3_without_security_has_no_auth() {
    let doc = plain_doc();
    let auths = extract_auth_methods(&doc);
    assert_eq!(auths.len(), 1);
    assert!(matches!(auths[0], AuthMethod::NoAuth));
    let spec = OpenApi3Parser.parse_document(&doc);
    assert!(spec.base_url.is_none());
    assert_eq!(spec.description, "");
}

#[test]
fn openapi3_security_scheme_kinds() {
    let mut doc = plain_doc();
    doc.components = Some(ComponentsObject {
        security_schemes: vec![
            ("k".to_string(), RefOr::Item(SecuritySchemeObject::ApiKey { location: ApiKeyLocation::Cookie, name: "sid".to_string() })),
            ("b".to_string(), RefOr::Item(SecuritySchemeObject::Http { scheme: "Basic".to_string() })),
            ("d".to_string(), RefOr::Item(SecuritySchemeObject::Http { scheme: "digest".to_string() })),
            ("o".to_string(), RefOr::Item(SecuritySchemeObject::OAuth2 { implicit: false, password: true, client_credentials: true, authorization_code: false })),
            ("c".to_string(), RefOr::Item(SecuritySchemeObject::OpenIdConnect)),
            ("r".to_string(), RefOr::Reference),
        ],
        schemas: Vec::new(),
    });
    let auths = extract_auth_methods(&doc);
    assert_eq!(auths.len(), 4);
    assert!(matches!(&auths[0], AuthMethod::ApiKey { location, name } if location == "cookie" && name == "sid"));
    assert!(matches!(auths[1], AuthMethod::Basic));
    assert!(matches!(&auths[2], AuthMethod::OAuth2 { flows } if flows == &vec!["password".to_string(), "client_credentials".to_string()]));
    assert!(matches!(&auths[3], AuthMethod::OAuth2 { flows } if flows == &vec!["openid_connect".to_string()]));
}

#[test]
fn openapi3_schema_kinds() {
    assert_eq!(schema_type_name(SchemaType::Boolean), "boolean");
    assert_eq!(schema_type_name(SchemaType::Any), "any");
    let s = SchemaObject {
        description: Some("Colors".to_string()),
        kind: SchemaType::String,
        required: Vec::new(),
        properties: Vec::new(),
        enumeration: vec![Some("red".to_string()), None, Some("blue".to_string())],
    };
    let c = convert_schema("Color", &s);
    assert_eq!(c.type_label, "string");
    assert_eq!(c.enum_values, vec!["red".to_string(), "blue".to_string()]);
    // the format holds the schema's description
    assert_eq!(c.format, Some("Colors".to_string()));
    let o = SchemaObject {
        description: None,
        kind: SchemaType::Object,
        required: vec!["a".to_string()],
        properties: vec![
            ("a".to_string(), RefOr::Item(PropertySchema { kind: SchemaType::Array, description: None })),
            ("b".to_string(), RefOr::Reference),
        ],
        enumeration: Vec::new(),
    };
    let c = convert_schema("Thing", &o);
    assert_eq!(c.type_label, "Thing");
    assert_eq!(c.properties[0].type_label, "array");
    assert!(c.properties[0].required);
    assert_eq!(c.properties[1].type_label, "string");
    assert!(!c.properties[1].required);
}

#[test]
fn openapi3_default_response_and_references() {
    let mut doc = plain_doc();
    doc.server_urls = vec!["https://a".to_string(), "https://b".to_string()];
    let op = OperationObject {
        tags: Vec::new(),
        summary: None,
        description: None,
        parameters: vec![
            RefOr::Reference,
            RefOr::Item(ParameterObject {
                location: ParameterLocation::Header,
                name: "h".to_string(),
                description: None,
                required: false,
                format: ParameterFormat::Content,
            }),
        ],
        request_body: Some(RefOr::Reference),
        responses: ResponsesObject {
            default: Some(RefOr::Item(ResponseObject { description: "fallback".to_string(), content: vec![] })),
            responses: vec![("404".to_string(), RefOr::Item(ResponseObject { description: "gone".to_string(), content: vec![] }))],
        },
    };
    doc.paths = vec![
        ("/r".to_string(), RefOr::Reference),
        (
            "/x".to_string(),
            RefOr::Item(PathItemObject { get: None, put: None, post: None, delete: Some(op), options: None, head: None, patch: None }),
        ),
    ];
    let spec = OpenApi3Parser.parse_document(&doc);
    assert_eq!(spec.base_url, Some("https://a".to_string()));
    assert_eq!(spec.endpoints.len(), 1);
    let ep = &spec.endpoints[0];
    assert_eq!(ep.method, HttpMethod::Delete);
    assert_eq!(ep.parameters.len(), 1);
    assert_eq!(ep.parameters[0].schema_type, "object");
    assert!(ep.request_body.is_none());
    assert_eq!(ep.responses[0].status_code, "default");
    assert_eq!(ep.responses[0].description, "fallback");
    assert_eq!(ep.responses[1].status_code, "404");
}

#[test]
fn openapi3_operations_in_method_order() {
    let spec = parse(
        r#"{"openapi":"3.0.0","info":{"title":"t","version":"1"},"paths":{"/a":{
        "options":{"responses":{}},"head":{"responses":{}},"put":{"responses":{}},"get":{"responses":{}}}}}"#,
    );
    let methods: Vec<_> = spec.endpoints.iter().map(|e| e.method).collect();
    assert_eq!(methods, vec![HttpMethod::Get, HttpMethod::Put, HttpMethod::Head, HttpMethod::Options]);
}

#[test]
fn openapi3_request_body_without_content() {
    let mut doc = plain_doc();
    let op = OperationObject {
        tags: Vec::new(),
        summary: Some("s".to_string()),
        description: Some("d".to_string()),
        parameters: Vec::new(),
        request_body: Some(RefOr::Item(RequestBodyObject { description: Some("body".to_string()), content: Vec::new(), required: false })),
        responses: ResponsesObject { default: None, responses: Vec::new() },
    };
    doc.paths = vec![(
        "/p".to_string(),
        RefOr::Item(PathItemObject { get: None, put: None, post: Some(op), delete: None, options: None, head: None, patch: None }),
    )];
    let spec = OpenApi3Parser.parse_document(&doc);
    let body = spec.endpoints[0].request_body.as_ref().unwrap();
    assert_eq!(body.content_type, "application/json");
    assert!(body.schema.is_none());
    assert_eq!(body.description, "body");
    assert_eq!(spec.endpoints[0].summary, "s");
}

#[test]
fn openapi3_detection() {
    assert!(OpenApi3Parser.detect("openapi: 3.1.0"));
    assert!(!OpenApi3Parser.detect("openapi: two"));
    assert!(!OpenApi3Parser.detect("swagger: \"2.0\""));
}

#[test]
fn openapi3_response_schemas_are_kept() {
    let doc = r#"{
      "openapi": "3.0.0",
      "info": {"title": "T", "version": "1"},
      "paths": {"/s": {"get": {"responses": {
        "200": {"description": "OK", "content": {"application/json": {"schema": {"type": "string"}}}},
        "404": {"description": "none"}
      }}}}
    }"#;
    let spec = parse(doc);
    let rs = &spec.endpoints[0].responses;
    assert_eq!(rs.len(), 2);
    assert_eq!(rs[0].status_code, "200");
    assert_eq!(rs[0].description, "OK");
    assert_eq!(rs[0].schema.as_ref().unwrap().type_label, "string");
    assert!(rs[1].schema.is_none());
}

#[test]
fn openapi3_required_flags_follow_required_fields() {
    let spec = parse(PETSTORE_OPENAPI3);
    for sc in &spec.schemas {
        for p in &sc.properties {
            assert_eq!(p.required, sc.required_fields.contains(&p.name));
        }
    }
}

#[test]
fn openapi3_text_as_yaml() {
    let yaml = "openapi: 3.0.0\ninfo:\n  title: Y\n  version: '2'\npaths:\n  /h:\n    get:\n      summary: Hello\n      responses:\n        '200':\n          description: ok\n";
    let spec = OpenApi3Parser.parse_text(yaml).unwrap();
    assert_eq!(spec.name, "Y");
    assert_eq!(spec.version, Some("2".to_string()));
    assert_eq!(spec.endpoints.len(), 1);
    assert_eq!(spec.endpoints[0].path, "/h");
    assert_eq!(spec.endpoints[0].summary, "Hello");
}

#[test]
fn openapi3_text_that_does_not_decode() {
    match OpenApi3Parser.parse_text("{ not json") {
        Err(e) => assert_eq!(e.message(), "Failed to parse OpenAPI 3.x JSON"),
        Ok(_) => panic!("decoded"),
    }
    match OpenApi3Parser.parse_text("just: [text") {
        Err(e) => assert_eq!(e.message(), "Failed to parse OpenAPI 3.x YAML"),
        Ok(_) => panic!("decoded"),
    }
}
