use apiguard::ir::{AuthMethod, HttpMethod, ParameterLocation};
use apiguard::parser::swagger2::{
    extract_auth, extract_definitions, extract_endpoints, Swagger2Parser, SwaggerInfo,
    SwaggerOperation, SwaggerParameter, SwaggerResponse, SwaggerSchema, SwaggerSchemaProperty,
    SwaggerSecurityDef, SwaggerSpec,
};
use apiguard::parser::{ApiParser, SpecSource};

const PETSTORE_SWAGGER2: &str = r#"{
  "swagger": "2.0",
  "info": {
    "title": "Petstore",
    "version": "1.0.0",
    "description": "A sample Swagger 2.0 API"
  },
  "host": "petstore.example.com",
  "basePath": "/v1",
  "paths": {
    "/pets": {
      "get": {
        "summary": "List all pets",
        "tags": ["pets"],
        "parameters": [
          {
            "name": "limit",
            "in": "query",
            "required": false,
            "type": "integer",
            "description": "Max items to return"
          }
        ],
        "responses": {
          "200": { "description": "A list of pets" }
        }
      }
    }
  },
  "definitions": {
    "Pet": {
      "type": "object",
      "required": ["id", "name"],
      "properties": {
        "id": { "type": "integer", "description": "Unique ID" },
        "name": { "type": "string", "description": "Pet name" }
      }
    }
  },
  "securityDefinitions": {
    "api_key": {
      "type": "apiKey",
      "name": "X-API-Key",
      "in": "header"
    }
  }
}"#;

// --- decoding the test documents ------------------------------------------

use serde_json::Value;

fn opt_str(v: &Value, key: &str) -> Option<String> {
    v.get(key).and_then(|x| x.as_str()).map(|x| x.to_string())
}

fn str_list(v: &Value, key: &str) -> Vec<String> {
    v.get(key)
        .and_then(|x| x.as_array())
        .map(|a| a.iter().filter_map(|x| x.as_str().map(|s| s.to_string())).collect())
        .unwrap_or_default()
}

fn entries(v: &Value, key: &str) -> Vec<(String, Value)> {
    let mut e: Vec<(String, Value)> = v
        .get(key)
        .and_then(|x| x.as_object())
        .map(|m| m.iter().map(|(k, x)| (k.clone(), x.clone())).collect())
        .unwrap_or_default();
    e.sort_by(|a, b| a.0.cmp(&b.0));
    e
}

fn operation(o: &Value) -> SwaggerOperation {
    SwaggerOperation {
        summary: opt_str(o, "summary"),
        description: opt_str(o, "description"),
        tags: str_list(o, "tags"),
        parameters: o
            .get("parameters")
            .and_then(|x| x.as_array())
            .map(|a| {
                a.iter()
                    .map(|p| SwaggerParameter {
                        name: opt_str(p, "name").unwrap(),
                        location: opt_str(p, "in").unwrap(),
                        description: opt_str(p, "description"),
                        required: p.get("required").and_then(|x| x.as_bool()).unwrap_or(false),
                        param_type: opt_str(p, "type"),
                    })
                    .collect()
            })
            .unwrap_or_default(),
        responses: entries(o, "responses")
            .into_iter()
            .map(|(k, r)| (k, SwaggerResponse { description: opt_str(&r, "description") }))
            .collect(),
    }
}

fn decode(content: &str) -> SwaggerSpec {
    let d: Value = serde_json::from_str(content).unwrap();
    let info = d.get("info").unwrap();
    SwaggerSpec {
        info: SwaggerInfo {
            title: opt_str(info, "title").unwrap(),
            version: opt_str(info, "version").unwrap(),
            description: opt_str(info, "description"),
        },
        host: opt_str(&d, "host"),
        base_path: opt_str(&d, "basePath"),
        paths: entries(&d, "paths")
            .into_iter()
            .map(|(p, ops)| (p, entries_of(&ops).into_iter().map(|(m, o)| (m, operation(&o))).collect()))
            .collect(),
        definitions: entries(&d, "definitions")
            .into_iter()
            .map(|(k, s)| {
                let def = SwaggerSchema {
                    schema_type: opt_str(&s, "type"),
                    description: opt_str(&s, "description"),
                    required: str_list(&s, "required"),
                    properties: entries(&s, "properties")
                        .into_iter()
                        .map(|(n, p)| {
                            let prop = SwaggerSchemaProperty {
                                prop_type: opt_str(&p, "type"),
                                description: opt_str(&p, "description"),
                            };
                            (n, prop)
                        })
                        .collect(),
                    enum_values: str_list(&s, "enum"),
                };
                (k, def)
            })
            .collect(),
        security_definitions: entries(&d, "securityDefinitions")
            .into_iter()
            .map(|(k, s)| {
                let def = SwaggerSecurityDef {
                    sec_type: opt_str(&s, "type").unwrap(),
                    name: opt_str(&s, "name"),
                    location: opt_str(&s, "in"),
                    flow: opt_str(&s, "flow"),
                };
                (k, def)
            })
            .collect(),
    }
}

fn entries_of(v: &Value) -> Vec<(String, Value)> {
    let mut e: Vec<(String, Value)> =
        v.as_object().map(|m| m.iter().map(|(k, x)| (k.clone(), x.clone())).collect()).unwrap_or_default();
    e.sort_by(|a, b| a.0.cmp(&b.0));
    e
}

fn parse(content: &str) -> apiguard::ir::ApiSpec {
    Swagger2Parser.parse(&SpecSource::Swagger2(decode(content))).unwrap()
}

// --- tests ------------------------------------------------------------------

#[test]
fn detects_swagger2() {
    let parser = Swagger2Parser;
    assert!(parser.detect(PETSTORE_SWAGGER2));
}

#[test]
fn parses_swagger2_info() {
    let spec = parse(PETSTORE_SWAGGER2);
    assert_eq!(spec.name, "Petstore");
    assert_eq!(spec.version, Some("1.0.0".to_string()));
    assert_eq!(
        spec.base_url,
        Some("https://petstore.example.com/v1".to_string())
    );
}

#[test]
fn parses_swagger2_endpoints() {
    let spec = parse(PETSTORE_SWAGGER2);
    assert_eq!(spec.endpoints.len(), 1);
    assert_eq!(spec.endpoints[0].method, HttpMethod::Get);
    assert_eq!(spec.endpoints[0].parameters.len(), 1);
}

#[test]
fn parses_swagger2_auth() {
    let spec = parse(PETSTORE_SWAGGER2);
    assert!(spec
        .auth_methods
        .iter()
        .any(|a| matches!(a, AuthMethod::ApiKey { .. })));
}

#[test]
fn parses_swagger2_definitions() {
    let spec = parse(PETSTORE_SWAGGER2);
    assert_eq!(spec.schemas.len(), 1);
    assert_eq!(spec.schemas[0].type_label, "Pet");
    assert_eq!(spec.schemas[0].properties.len(), 2);
}

fn empty_doc() -> SwaggerSpec {
    SwaggerSpec {
        info: SwaggerInfo { title: "T".to_string(), version: "v".to_string(), description: None },
        host: None,
        base_path: None,
        paths: Vec::new(),
        definitions: Vec::new(),
        security_definitions: Vec::new(),
    }
}

#[test]
fn swagger2_base_url_forms() {
    let mut doc = empty_doc();
    assert!(Swagger2Parser.parse_document(&doc).base_url.is_none());
    doc.host = Some("h.example".to_string());
    assert_eq!(Swagger2Parser.parse_document(&doc).base_url, Some("https://h.example".to_string()));
    doc.base_path = Some("/api".to_string());
    assert_eq!(Swagger2Parser.parse_document(&doc).base_url, Some("https://h.example/api".to_string()));
    doc.host = None;
    assert!(Swagger2Parser.parse_document(&doc).base_url.is_none());
}

#[test]
fn swagger2_auth_kinds() {
    let mut doc = empty_doc();
    let auths = extract_auth(&doc);
    assert!(matches!(auths[..], [AuthMethod::NoAuth]));
    let sec = |t: &str, flow: Option<&str>| SwaggerSecurityDef {
        sec_type: t.to_string(),
        name: None,
        location: None,
        flow: flow.map(|f| f.to_string()),
    };
    doc.security_definitions = vec![
        ("a".to_string(), sec("basic", None)),
        ("b".to_string(), sec("oauth2", Some("implicit"))),
        ("c".to_string(), sec("oauth2", None)),
        ("d".to_string(), sec("other", None)),
        ("e".to_string(), sec("apiKey", None)),
    ];
    let auths = extract_auth(&doc);
    assert_eq!(auths.len(), 4);
    assert!(matches!(auths[0], AuthMethod::Basic));
    assert!(matches!(&auths[1], AuthMethod::OAuth2 { flows } if flows == &vec!["implicit".to_string()]));
    assert!(matches!(&auths[2], AuthMethod::OAuth2 { flows } if flows.is_empty()));
    assert!(matches!(&auths[3], AuthMethod::ApiKey { location, name } if location.is_empty() && name.is_empty()));
}

#[test]
fn swagger2_endpoint_details() {
    let spec = parse(PETSTORE_SWAGGER2);
    let ep = &spec.endpoints[0];
    assert_eq!(ep.path, "/pets");
    assert_eq!(ep.summary, "List all pets");
    assert_eq!(ep.tags, vec!["pets".to_string()]);
    assert_eq!(ep.parameters[0].schema_type, "integer");
    assert_eq!(ep.parameters[0].location, ParameterLocation::Query);
    assert_eq!(ep.responses[0].status_code, "200");
    assert_eq!(ep.responses[0].description, "A list of pets");
    let pet = &spec.schemas[0];
    assert_eq!(pet.format, Some("object".to_string()));
    assert!(pet.properties[0].required);
    assert_eq!(pet.required_fields, vec!["id".to_string(), "name".to_string()]);
}

#[test]
fn swagger2_unknown_methods_and_locations() {
    let mut doc = empty_doc();
    let op = |loc: &str| SwaggerOperation {
        summary: None,
        description: None,
        tags: Vec::new(),
        parameters: vec![SwaggerParameter {
            name: "p".to_string(),
            location: loc.to_string(),
            description: None,
            required: true,
            param_type: None,
        }],
        responses: Vec::new(),
    };
    doc.paths = vec![(
        "/x".to_string(),
        vec![
            ("delete".to_string(), op("path")),
            ("parameters".to_string(), op("query")),
            ("put".to_string(), op("formData")),
        ],
    )];
    let eps = extract_endpoints(&doc);
    assert_eq!(eps.len(), 2);
    assert_eq!(eps[0].method, HttpMethod::Delete);
    assert_eq!(eps[0].parameters[0].location, ParameterLocation::Path);
    assert_eq!(eps[0].parameters[0].schema_type, "string");
    assert_eq!(eps[1].method, HttpMethod::Put);
    assert_eq!(eps[1].parameters[0].location, ParameterLocation::Query);
}

#[test]
fn swagger2_definition_defaults() {
    let mut doc = empty_doc();
    doc.definitions = vec![(
        "Color".to_string(),
        SwaggerSchema {
            schema_type: None,
            description: None,
            required: Vec::new(),
            properties: vec![("p".to_string(), SwaggerSchemaProperty { prop_type: None, description: None })],
            enum_values: vec!["red".to_string()],
        },
    )];
    let defs = extract_definitions(&doc);
    assert_eq!(defs[0].type_label, "Color");
    assert!(defs[0].format.is_none());
    assert_eq!(defs[0].properties[0].type_label, "string");
    assert!(!defs[0].properties[0].required);
    assert_eq!(defs[0].enum_values, vec!["red".to_string()]);
}

#[test]
fn swagger2_detection() {
    assert!(Swagger2Parser.detect("swagger: \"2.0\""));
    assert!(Swagger2Parser.detect("swagger: 2.0"));
    assert!(Swagger2Parser.detect("swagger: '2.0'"));
    assert!(!Swagger2Parser.detect("swagger: 3.0"));
    assert!(!Swagger2Parser.detect("{\"openapi\": \"3.0.0\"}"));
}
