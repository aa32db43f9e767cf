use apiguard::ir::{HttpMethod, ParameterLocation};
use apiguard::parser::proto::{extract_package, parse_messages, parse_services, ProtoParser};
use apiguard::parser::{ApiParser, SpecSource};

const SAMPLE_PROTO: &str = r#"
syntax = "proto3";

package petstore.v1;

// A pet in the store
message Pet {
  // Unique identifier
  int64 id = 1;
  // Pet name
  string name = 2;
  // Optional tag
  string tag = 3;
}

message ListPetsRequest {
  int32 limit = 1;
}

message ListPetsResponse {
  repeated Pet pets = 1;
}

message GetPetRequest {
  int64 id = 1;
}

service PetService {
  // List all pets
  rpc ListPets(ListPetsRequest) returns (ListPetsResponse);
  // Get a specific pet
  rpc GetPet(GetPetRequest) returns (Pet);
  // Stream pet updates
  rpc WatchPets(ListPetsRequest) returns (stream Pet);
}
"#;

fn parse(text: &str) -> apiguard::ir::ApiSpec {
    ProtoParser.parse(&SpecSource::Text(text.to_string())).unwrap()
}

#[test]
fn detects_proto() {
    let parser = ProtoParser;
    assert!(parser.detect(SAMPLE_PROTO));
}

#[test]
fn does_not_detect_graphql() {
    let parser = ProtoParser;
    assert!(!parser.detect("type Query { pets: [Pet] }"));
}

#[test]
fn parses_package() {
    let pkg = extract_package(SAMPLE_PROTO);
    assert_eq!(pkg, Some("petstore.v1".to_string()));
}

#[test]
fn parses_services() {
    let spec = parse(SAMPLE_PROTO);
    assert_eq!(spec.name, "PetService");
    assert_eq!(spec.endpoints.len(), 3);
}

#[test]
fn parses_streaming() {
    let spec = parse(SAMPLE_PROTO);
    let watch = spec
        .endpoints
        .iter()
        .find(|e| e.path.contains("WatchPets"))
        .unwrap();
    assert!(watch.summary.contains("server streaming"));
}

#[test]
fn parses_messages() {
    let spec = parse(SAMPLE_PROTO);
    assert!(spec.schemas.len() >= 3); // Pet, ListPetsRequest, ListPetsResponse, GetPetRequest
    let pet = spec.schemas.iter().find(|s| s.type_label == "Pet").unwrap();
    assert_eq!(pet.properties.len(), 3);
}

#[test]
fn proto_endpoint_details() {
    let spec = parse(SAMPLE_PROTO);
    let list = &spec.endpoints[0];
    assert_eq!(list.path, "/petstore.v1.PetService/ListPets");
    assert_eq!(list.method, HttpMethod::Post);
    assert_eq!(list.summary, "ListPets");
    assert_eq!(list.description, "List all pets");
    assert_eq!(list.tags, vec!["PetService".to_string()]);
    assert_eq!(list.parameters.len(), 1);
    assert_eq!(list.parameters[0].name, "ListPetsRequest");
    assert_eq!(list.parameters[0].location, ParameterLocation::Query);
    assert_eq!(list.parameters[0].description, "Request message: ListPetsRequest");
    assert!(list.parameters[0].required);
    assert_eq!(list.responses[0].status_code, "OK");
    assert_eq!(list.responses[0].description, "Returns ListPetsResponse");
    assert_eq!(spec.endpoints[2].summary, "WatchPets (server streaming)");
}

#[test]
fn proto_spec_description_names_package() {
    let spec = parse(SAMPLE_PROTO);
    assert_eq!(spec.description, "gRPC service (package: petstore.v1)");
    let bare = parse("syntax = \"proto3\";\nservice S {\n  rpc A(X) returns (Y);\n}\n");
    assert_eq!(bare.description, "gRPC service (package: unknown)");
    assert_eq!(bare.endpoints[0].path, "/.S/A");
}

#[test]
fn proto_without_services_is_named_generically() {
    let spec = parse("syntax = \"proto3\";\nmessage M {\n  int32 a = 1;\n}\n");
    assert_eq!(spec.name, "gRPC API");
    assert!(spec.endpoints.is_empty());
}

#[test]
fn proto_streaming_notes() {
    let spec = parse(
        "service S {\n  rpc Up(stream A) returns (B);\n  rpc Both(stream A) returns (stream B);\n  rpc Plain(A) returns (B);\n}\n",
    );
    assert_eq!(spec.endpoints[0].summary, "Up (client streaming)");
    assert_eq!(spec.endpoints[1].summary, "Both (bidirectional streaming)");
    assert_eq!(spec.endpoints[2].summary, "Plain");
}

#[test]
fn proto_repeated_fields_are_lists() {
    let msgs = parse_messages(SAMPLE_PROTO);
    let resp = msgs.iter().find(|m| m.name == "ListPetsResponse").unwrap();
    assert_eq!(resp.fields.len(), 1);
    assert_eq!(resp.fields[0].name, "pets");
    assert_eq!(resp.fields[0].field_type, "[Pet]");
    let pet = msgs.iter().find(|m| m.name == "Pet").unwrap();
    assert_eq!(pet.comment, "A pet in the store");
    assert_eq!(pet.fields[1].comment, "Pet name");
}

#[test]
fn proto_message_schema_requires_every_field() {
    let spec = parse(SAMPLE_PROTO);
    let pet = spec.schemas.iter().find(|s| s.type_label == "Pet").unwrap();
    assert!(pet.properties.iter().all(|p| p.required));
    assert_eq!(
        pet.required_fields,
        vec!["id".to_string(), "name".to_string(), "tag".to_string()]
    );
    assert_eq!(pet.properties[0].type_label, "int64");
}

#[test]
fn proto_services_list_rpcs() {
    let services = parse_services(SAMPLE_PROTO);
    assert_eq!(services.len(), 1);
    assert_eq!(services[0].rpcs.len(), 3);
    assert!(services[0].rpcs[2].server_streaming);
    assert!(!services[0].rpcs[2].client_streaming);
    assert_eq!(services[0].rpcs[1].output_type, "Pet");
}

#[test]
fn proto_without_package() {
    assert_eq!(extract_package("syntax = \"proto3\";"), None);
}
