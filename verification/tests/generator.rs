use apiguard::generator::{collect_tags, generate_guide};
use apiguard::ir::{
    ApiSpec, AuthMethod, Endpoint, HttpMethod, Parameter, ParameterLocation, RequestBody,
    Response, Schema, SchemaProperty, SpecFormat,
};

fn sample_spec() -> ApiSpec {
    ApiSpec {
        name: "TestAPI".to_string(),
        version: Some("1.0.0".to_string()),
        description: "A test API".to_string(),
        base_url: Some("https://api.example.com".to_string()),
        spec_format: SpecFormat::OpenApi3,
        auth_methods: vec![AuthMethod::Bearer],
        endpoints: vec![Endpoint {
            path: "/users".to_string(),
            method: HttpMethod::Get,
            summary: "List users".to_string(),
            description: String::new(),
            parameters: vec![Parameter {
                name: "limit".to_string(),
                location: ParameterLocation::Query,
                description: "Max items".to_string(),
                required: false,
                schema_type: "integer".to_string(),
            }],
            request_body: None,
            responses: vec![Response {
                status_code: "200".to_string(),
                description: "Success".to_string(),
                schema: None,
            }],
            tags: vec!["users".to_string()],
        }],
        schemas: vec![Schema {
            type_label: "User".to_string(),
            format: None,
            properties: vec![SchemaProperty {
                name: "id".to_string(),
                type_label: "integer".to_string(),
                description: "User ID".to_string(),
                required: true,
            }],
            required_fields: vec!["id".to_string()],
            enum_values: Vec::new(),
            description: "A user".to_string(),
        }],
    }
}

fn bare_spec() -> ApiSpec {
    ApiSpec {
        name: "Bare".to_string(),
        version: None,
        description: String::new(),
        base_url: None,
        spec_format: SpecFormat::GraphQl,
        auth_methods: vec![AuthMethod::NoAuth],
        endpoints: Vec::new(),
        schemas: Vec::new(),
    }
}

fn endpoint(path: &str, method: HttpMethod, summary: &str, tags: &[&str]) -> Endpoint {
    Endpoint {
        path: path.to_string(),
        method,
        summary: summary.to_string(),
        description: String::new(),
        parameters: Vec::new(),
        request_body: None,
        responses: Vec::new(),
        tags: tags.iter().map(|t| t.to_string()).collect(),
    }
}

#[test]
fn generates_non_empty_guide() {
    let guide = generate_guide(&sample_spec()).unwrap();
    assert!(!guide.is_empty());
}

#[test]
fn guide_has_header() {
    let guide = generate_guide(&sample_spec()).unwrap();
    assert!(guide.contains("# TestAPI for AI Agents"));
}

#[test]
fn guide_has_auth() {
    let guide = generate_guide(&sample_spec()).unwrap();
    assert!(guide.contains("## Authentication"));
    assert!(guide.contains("Bearer Token"));
}

#[test]
fn guide_has_quick_reference() {
    let guide = generate_guide(&sample_spec()).unwrap();
    assert!(guide.contains("## Quick Reference"));
    assert!(guide.contains("GET"));
    assert!(guide.contains("/users"));
}

#[test]
fn guide_has_endpoint_details() {
    let guide = generate_guide(&sample_spec()).unwrap();
    assert!(guide.contains("## Endpoint Reference"));
    assert!(guide.contains("| `limit`"));
}

#[test]
fn guide_has_data_models() {
    let guide = generate_guide(&sample_spec()).unwrap();
    assert!(guide.contains("## Data Models"));
    assert!(guide.contains("### `User`"));
}

#[test]
fn guide_has_curl_example() {
    let guide = generate_guide(&sample_spec()).unwrap();
    assert!(guide.contains("curl"));
    assert!(guide.contains("limit=<value>"));
}

#[test]
fn guide_full_text_of_sample() {
    let guide = generate_guide(&sample_spec()).unwrap();
    let expected: String = [
        "# TestAPI for AI Agents\n",
        "\n",
        "A test API\n",
        "\n",
        "**Base URL**: `https://api.example.com`\n",
        "\n",
        "## Authentication\n",
        "\n",
        "**Bearer Token**\n",
        "```bash\n",
        "curl -H \"Authorization: Bearer <token>\" <url>\n",
        "```\n",
        "\n",
        "## Quick Reference\n",
        "\n",
        "```bash\n",
        "# users\n",
        "GET   https://api.example.com/users                 # List users\n",
        "\n",
        "```\n",
        "\n",
        "## Endpoint Reference\n",
        "\n",
        "### `GET /users`\n",
        "\n",
        "List users\n",
        "\n",
        "**Parameters:**\n",
        "\n",
        "| Name | In | Type | Required | Description |\n",
        "|------|-----|------|----------|-------------|\n",
        "| `limit` | query | integer | no | Max items |\n",
        "\n",
        "**Responses:**\n",
        "\n",
        "| Status | Description |\n",
        "|--------|-------------|\n",
        "| 200 | Success |\n",
        "\n",
        "**Example:**\n",
        "```bash\n",
        "curl \"https://api.example.com/users?limit=<value>\"\n",
        "```\n",
        "\n",
        "## Data Models\n",
        "\n",
        "### `User`\n",
        "\n",
        "A user\n",
        "\n",
        "| Field | Type | Required | Description |\n",
        "|-------|------|----------|-------------|\n",
        "| `id` | integer | yes | User ID |\n",
        "\n",
        "---\n",
        "**Format**: OpenAPI 3.x | **Version**: 1.0.0\n",
    ]
    .concat();
    assert_eq!(guide, expected);
}

#[test]
fn guide_of_bare_spec() {
    let guide = generate_guide(&bare_spec()).unwrap();
    let expected: String = [
        "# Bare for AI Agents\n",
        "\n",
        "## Authentication\n",
        "\n",
        "No authentication required.\n",
        "\n",
        "## Quick Reference\n",
        "\n",
        "```bash\n",
        "```\n",
        "\n",
        "---\n",
        "**Format**: GraphQL | **Version**: unknown\n",
    ]
    .concat();
    assert_eq!(guide, expected);
}

#[test]
fn guide_auth_variants() {
    let mut spec = bare_spec();
    spec.auth_methods = vec![
        AuthMethod::ApiKey { location: "header".to_string(), name: "X-$Key".to_string() },
        AuthMethod::ApiKey { location: "query".to_string(), name: "key".to_string() },
        AuthMethod::Basic,
        AuthMethod::OAuth2 { flows: vec!["implicit".to_string(), "password".to_string()] },
    ];
    let guide = generate_guide(&spec).unwrap();
    assert!(guide.contains("**API Key** (header: `X-\\$Key`)\n```bash\ncurl -H \"X-\\$Key: <api-key>\" <url>\n```\n\n"));
    assert!(guide.contains("curl \"<url>?key=<api-key>\"\n"));
    assert!(guide.contains("**Basic Auth**\n```bash\ncurl -u username:password <url>\n```\n\n"));
    assert!(guide.contains("**OAuth2** (flows: implicit, password)\n\n"));
}

#[test]
fn quick_reference_without_tags_and_long_summary() {
    let mut spec = bare_spec();
    let long = "s".repeat(60);
    spec.endpoints = vec![endpoint("/a", HttpMethod::Delete, &long, &[])];
    let guide = generate_guide(&spec).unwrap();
    let line = format!("DELETE/a{}  # {}...\n", " ".repeat(42), "s".repeat(47));
    assert!(guide.contains(&line));
    assert!(guide.contains("curl -X DELETE \"https://api.example.com/a\"\n"));
}

#[test]
fn quick_reference_groups_by_tag() {
    let mut spec = bare_spec();
    spec.endpoints = vec![
        endpoint("/a", HttpMethod::Get, "", &["x"]),
        endpoint("/b", HttpMethod::Options, "", &["y", "x"]),
    ];
    let guide = generate_guide(&spec).unwrap();
    let x_group = format!(
        "# x\nGET   /a{}  \nOPTIONS/b{}  \n\n",
        " ".repeat(42),
        " ".repeat(41)
    );
    assert!(guide.contains(&x_group));
    assert!(guide.contains(&format!("# y\nOPTIONS/b{}  \n\n", " ".repeat(41))));
    assert!(guide.contains("curl \"https://api.example.com/b\"\n"));
}

#[test]
fn post_example_and_request_body() {
    let mut spec = bare_spec();
    let mut ep = endpoint("/p", HttpMethod::Post, "", &[]);
    ep.request_body = Some(RequestBody {
        content_type: "application/json".to_string(),
        schema: Some(Schema {
            type_label: "RequestBody".to_string(),
            format: None,
            properties: vec![SchemaProperty {
                name: "a|b".to_string(),
                type_label: "string".to_string(),
                description: "desc".to_string(),
                required: true,
            }],
            required_fields: Vec::new(),
            enum_values: Vec::new(),
            description: String::new(),
        }),
        required: true,
        description: String::new(),
    });
    spec.endpoints = vec![ep];
    let guide = generate_guide(&spec).unwrap();
    assert!(guide.contains("**Request Body** (`application/json`, required)\n\n"));
    assert!(guide.contains("| `a\\|b` | string | yes | desc |\n"));
    assert!(guide.contains(
        "curl -X POST \"https://api.example.com/p\" \\\n  -H \"Content-Type: application/json\" \\\n  -d '{}'\n"
    ));
}

#[test]
fn data_model_enum_values_are_escaped() {
    let mut spec = bare_spec();
    spec.schemas = vec![Schema {
        type_label: "Color".to_string(),
        format: None,
        properties: Vec::new(),
        required_fields: Vec::new(),
        enum_values: vec!["red".to_string(), "a|b".to_string()],
        description: String::new(),
    }];
    let guide = generate_guide(&spec).unwrap();
    assert!(guide.contains("### `Color`\n\n**Values**: red, a\\|b\n\n"));
}

#[test]
fn tags_are_collected_once_in_order() {
    let mut spec = bare_spec();
    spec.endpoints = vec![
        endpoint("/a", HttpMethod::Get, "", &["b", "a"]),
        endpoint("/b", HttpMethod::Get, "", &["a", "c", "b"]),
    ];
    assert_eq!(collect_tags(&spec), vec!["b", "a", "c"]);
}

#[test]
fn long_summaries_are_cut_at_a_character_boundary() {
    let mut spec = bare_spec();
    // 46 ASCII bytes then two-byte characters, one spanning byte 47
    let summary = format!("{}{}", "a".repeat(46), "é".repeat(4));
    spec.endpoints = vec![endpoint("/x", HttpMethod::Get, &summary, &[])];
    let guide = generate_guide(&spec).unwrap();
    let line = format!("GET   /x{}  # {}...\n", " ".repeat(42), "a".repeat(46));
    assert!(guide.contains(&line));
    // a boundary right at byte 47 keeps 47 bytes
    let at = format!("{}é{}", "a".repeat(45), "b".repeat(10));
    spec.endpoints = vec![endpoint("/x", HttpMethod::Get, &at, &[])];
    let guide = generate_guide(&spec).unwrap();
    let line = format!("GET   /x{}  # {}é...\n", " ".repeat(42), "a".repeat(45));
    assert!(guide.contains(&line));
}

#[test]
fn display_names() {
    assert_eq!(HttpMethod::Patch.to_string(), "PATCH");
    assert_eq!(ParameterLocation::Cookie.to_string(), "cookie");
    assert_eq!(SpecFormat::GrpcProto.to_string(), "gRPC/Protobuf");
    assert_eq!(
        AuthMethod::ApiKey { location: "header".to_string(), name: "X".to_string() }.to_string(),
        "API Key (header: X)"
    );
    assert_eq!(
        AuthMethod::OAuth2 { flows: vec!["a".to_string(), "b".to_string()] }.to_string(),
        "OAuth2 (a, b)"
    );
    assert_eq!(AuthMethod::NoAuth.to_string(), "None");
}

#[test]
fn untagged_endpoints_follow_the_tag_groups() {
    let mut spec = bare_spec();
    spec.base_url = None;
    spec.endpoints = vec![
        endpoint("/a", HttpMethod::Get, "", &["t"]),
        endpoint("/b", HttpMethod::Get, "", &[]),
    ];
    let guide = generate_guide(&spec).unwrap();
    let expected = format!(
        "```bash\n# t\nGET   /a{}  \n\n# Untagged\nGET   /b{}  \n\n```\n",
        " ".repeat(42),
        " ".repeat(42)
    );
    assert!(guide.contains(&expected));
}

#[test]
fn response_descriptions_are_escaped() {
    let mut spec = bare_spec();
    let mut ep = endpoint("/p", HttpMethod::Get, "", &[]);
    ep.responses = vec![Response {
        status_code: "200".to_string(),
        description: "ok|fine".to_string(),
        schema: None,
    }];
    spec.endpoints = vec![ep];
    let guide = generate_guide(&spec).unwrap();
    assert!(guide.contains("**Responses:**\n\n| Status | Description |\n|--------|-------------|\n| 200 | ok\\|fine |\n"));
}

#[test]
fn data_model_descriptions_are_escaped() {
    let mut spec = bare_spec();
    spec.schemas = vec![Schema {
        type_label: "S".to_string(),
        format: None,
        properties: vec![SchemaProperty {
            name: "p".to_string(),
            type_label: "string".to_string(),
            description: "a|b\nc".to_string(),
            required: false,
        }],
        required_fields: Vec::new(),
        enum_values: Vec::new(),
        description: "x|y".to_string(),
    }];
    let guide = generate_guide(&spec).unwrap();
    assert!(guide.contains("### `S`\n\nx\\|y\n\n"));
    assert!(guide.contains("| `p` | string | no | a\\|b c |\n"));
}

#[test]
fn data_model_names_and_types_are_written_as_given() {
    let mut spec = bare_spec();
    spec.schemas = vec![Schema {
        type_label: "S".to_string(),
        format: None,
        properties: vec![SchemaProperty {
            name: "a_b".to_string(),
            type_label: "map<k|v>".to_string(),
            description: "d".to_string(),
            required: true,
        }],
        required_fields: vec!["a_b".to_string()],
        enum_values: Vec::new(),
        description: String::new(),
    }];
    let guide = generate_guide(&spec).unwrap();
    assert!(guide.contains("| `a_b` | map<k|v> | yes | d |\n"));
}
