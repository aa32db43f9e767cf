//! Decoding OpenAPI 3.x text with `serde_json` / `serde_yml` into `openapiv3`'s
//! model, then into the library's document model, one type at a time.
//!
//! Only the two decoders carry a contract: each result is the named function
//! of the text. The converters below them carry none, so nothing proved rests
//! on them; each turns one `openapiv3` type into its counterpart, field by
//! field.
use crate::ir::ParameterLocation;
use crate::parser::openapi3::{
    openapi3_from_json, openapi3_from_yaml, ApiKeyLocation, ComponentsObject, OpenApiDocument,
    OperationObject, ParameterFormat, ParameterObject, PathItemObject, PropertySchema, RefOr,
    RequestBodyObject, ResponseObject, ResponsesObject, SchemaObject, SchemaType,
    SecuritySchemeObject,
};
use vstd::prelude::*;

verus! {

#[verifier::external_type_specification]
#[verifier::external_body]
pub struct ExOpenApi(openapiv3::OpenAPI);

#[verifier::external_type_specification]
#[verifier::external_body]
pub struct ExComponents(openapiv3::Components);

#[verifier::external_type_specification]
#[verifier::external_body]
pub struct ExPathItem(openapiv3::PathItem);

#[verifier::external_type_specification]
#[verifier::external_body]
pub struct ExOperation(openapiv3::Operation);

#[verifier::external_type_specification]
#[verifier::external_body]
pub struct ExResponses(openapiv3::Responses);

#[verifier::external_type_specification]
#[verifier::external_body]
pub struct ExMediaType(openapiv3::MediaType);

#[verifier::external_type_specification]
#[verifier::external_body]
pub struct ExSchemaKind(openapiv3::SchemaKind);

#[verifier::external_type_specification]
#[verifier::external_body]
pub struct ExObjectType(openapiv3::ObjectType);

#[verifier::external_type_specification]
#[verifier::external_body]
pub struct ExParameterData(openapiv3::ParameterData);

#[verifier::external_type_specification]
#[verifier::external_body]
pub struct ExSecurityScheme(openapiv3::SecurityScheme);

#[verifier::external_type_specification]
#[verifier::external_body]
pub struct ExApiKeyLocation(openapiv3::APIKeyLocation);

#[verifier::external_type_specification]
#[verifier::external_body]
#[verifier::reject_recursive_types(T)]
pub struct ExReferenceOr<T>(openapiv3::ReferenceOr<T>);

/// `serde_json::from_str` into `openapiv3::OpenAPI`, then into the library's
/// model: `None` when the text is not such a JSON document. The contract
/// claims that the result is the named function of the text, and that its
/// maps keep unique keys, as the `IndexMap`s they come from do.
#[verifier::external_body]
pub(crate) fn decode_openapi3_json(text: &str) -> (r: Option<OpenApiDocument>)
    ensures
        r == openapi3_from_json(text@),
        r matches Some(d) ==> d.well_formed(),
{
    serde_json::from_str::<openapiv3::OpenAPI>(text).ok().map(|s| document(&s))
}

/// `serde_yml::from_str` into `openapiv3::OpenAPI`, then into the library's
/// model: `None` when the text is not such a YAML document. The contract
/// claims that the result is the named function of the text, and that its
/// maps keep unique keys, as the `IndexMap`s they come from do.
#[verifier::external_body]
#[allow(deprecated)]
pub(crate) fn decode_openapi3_yaml(text: &str) -> (r: Option<OpenApiDocument>)
    ensures
        r == openapi3_from_yaml(text@),
        r matches Some(d) ==> d.well_formed(),
{
    serde_yml::from_str::<openapiv3::OpenAPI>(text).ok().map(|s| document(&s))
}

#[verifier::external_body]
fn ref_or<T, U, F: Fn(&T) -> U>(r: &openapiv3::ReferenceOr<T>, f: F) -> RefOr<U> {
    match r {
        openapiv3::ReferenceOr::Item(x) => RefOr::Item(f(x)),
        openapiv3::ReferenceOr::Reference { .. } => RefOr::Reference,
    }
}

#[verifier::external_body]
fn schema_type(kind: &openapiv3::SchemaKind) -> SchemaType {
    match kind {
        openapiv3::SchemaKind::Type(openapiv3::Type::String(_)) => SchemaType::String,
        openapiv3::SchemaKind::Type(openapiv3::Type::Number(_)) => SchemaType::Number,
        openapiv3::SchemaKind::Type(openapiv3::Type::Integer(_)) => SchemaType::Integer,
        openapiv3::SchemaKind::Type(openapiv3::Type::Boolean(_)) => SchemaType::Boolean,
        openapiv3::SchemaKind::Type(openapiv3::Type::Object(_)) => SchemaType::Object,
        openapiv3::SchemaKind::Type(openapiv3::Type::Array(_)) => SchemaType::Array,
        _ => SchemaType::Any,
    }
}

#[verifier::external_body]
fn object_properties(o: &openapiv3::ObjectType) -> Vec<(String, RefOr<PropertySchema>)> {
    o.properties.iter().map(|(k, v)| (k.clone(), ref_or(v, |b| PropertySchema {
        kind: schema_type(&b.schema_kind),
        description: b.schema_data.description.clone(),
    }))).collect()
}

/// A schema, given by its kind and its description.
#[verifier::external_body]
fn schema_object(kind: &openapiv3::SchemaKind, description: &Option<String>) -> SchemaObject {
    let (required, properties, enumeration) = match kind {
        openapiv3::SchemaKind::Type(openapiv3::Type::Object(o)) => (o.required.clone(), object_properties(o), vec![]),
        openapiv3::SchemaKind::Type(openapiv3::Type::String(t)) => (vec![], vec![], t.enumeration.clone()),
        _ => (vec![], vec![], vec![]),
    };
    SchemaObject { description: description.clone(), kind: schema_type(kind), required, properties, enumeration }
}

#[verifier::external_body]
fn media_schema(m: &openapiv3::MediaType) -> Option<RefOr<SchemaObject>> {
    m.schema.as_ref().map(|r| ref_or(r, |s| schema_object(&s.schema_kind, &s.schema_data.description)))
}

#[verifier::external_body]
fn responses(rs: &openapiv3::Responses) -> ResponsesObject {
    let response = |r: &openapiv3::Response| ResponseObject {
        description: r.description.clone(),
        content: r.content.iter().map(|(ct, m)| (ct.clone(), media_schema(m))).collect(),
    };
    let responses = rs.responses.iter().map(|(c, x)| (c.to_string(), ref_or(x, response))).collect();
    ResponsesObject { default: rs.default.as_ref().map(|d| ref_or(d, response)), responses }
}

#[verifier::external_body]
fn parameter_data(location: ParameterLocation, d: &openapiv3::ParameterData) -> ParameterObject {
    let format = match &d.format {
        openapiv3::ParameterSchemaOrContent::Schema(r) => ParameterFormat::Schema(ref_or(r, |s| schema_type(&s.schema_kind))),
        openapiv3::ParameterSchemaOrContent::Content(_) => ParameterFormat::Content,
    };
    let (name, description) = (d.name.clone(), d.description.clone());
    ParameterObject { location, name, description, required: d.required, format }
}

#[verifier::external_body]
fn operation_parameters(op: &openapiv3::Operation) -> Vec<RefOr<ParameterObject>> {
    op.parameters.iter().map(|p| ref_or(p, |p| match p {
        openapiv3::Parameter::Query { parameter_data: d, .. } => parameter_data(ParameterLocation::Query, d),
        openapiv3::Parameter::Header { parameter_data: d, .. } => parameter_data(ParameterLocation::Header, d),
        openapiv3::Parameter::Path { parameter_data: d, .. } => parameter_data(ParameterLocation::Path, d),
        openapiv3::Parameter::Cookie { parameter_data: d, .. } => parameter_data(ParameterLocation::Cookie, d),
    })).collect()
}

#[verifier::external_body]
fn operation_request_body(op: &openapiv3::Operation) -> Option<RefOr<RequestBodyObject>> {
    op.request_body.as_ref().map(|rb| ref_or(rb, |b| RequestBodyObject {
        description: b.description.clone(),
        content: b.content.iter().map(|(ct, m)| (ct.clone(), media_schema(m))).collect(),
        required: b.required,
    }))
}

#[verifier::external_body]
fn operation(op: &openapiv3::Operation) -> OperationObject {
    OperationObject {
        tags: op.tags.clone(),
        summary: op.summary.clone(),
        description: op.description.clone(),
        parameters: operation_parameters(op),
        request_body: operation_request_body(op),
        responses: responses(&op.responses),
    }
}

#[verifier::external_body]
fn path_item(p: &openapiv3::PathItem) -> PathItemObject {
    PathItemObject {
        get: p.get.as_ref().map(operation),
        put: p.put.as_ref().map(operation),
        post: p.post.as_ref().map(operation),
        delete: p.delete.as_ref().map(operation),
        options: p.options.as_ref().map(operation),
        head: p.head.as_ref().map(operation),
        patch: p.patch.as_ref().map(operation),
    }
}

#[verifier::external_body]
fn api_key_location(l: &openapiv3::APIKeyLocation) -> ApiKeyLocation {
    match l {
        openapiv3::APIKeyLocation::Query => ApiKeyLocation::Query,
        openapiv3::APIKeyLocation::Header => ApiKeyLocation::Header,
        openapiv3::APIKeyLocation::Cookie => ApiKeyLocation::Cookie,
    }
}

#[verifier::external_body]
fn security_scheme(s: &openapiv3::SecurityScheme) -> SecuritySchemeObject {
    match s {
        openapiv3::SecurityScheme::APIKey { location: l, name, .. } => SecuritySchemeObject::ApiKey { location: api_key_location(l), name: name.clone() },
        openapiv3::SecurityScheme::HTTP { scheme, .. } => SecuritySchemeObject::Http { scheme: scheme.clone() },
        openapiv3::SecurityScheme::OAuth2 { flows: f, .. } => SecuritySchemeObject::OAuth2 {
            implicit: f.implicit.is_some(),
            password: f.password.is_some(),
            client_credentials: f.client_credentials.is_some(),
            authorization_code: f.authorization_code.is_some(),
        },
        openapiv3::SecurityScheme::OpenIDConnect { .. } => SecuritySchemeObject::OpenIdConnect,
    }
}

#[verifier::external_body]
fn components(c: &openapiv3::Components) -> ComponentsObject {
    let schema = |s: &openapiv3::Schema| schema_object(&s.schema_kind, &s.schema_data.description);
    ComponentsObject {
        security_schemes: c.security_schemes.iter().map(|(k, v)| (k.clone(), ref_or(v, security_scheme))).collect(),
        schemas: c.schemas.iter().map(|(k, v)| (k.clone(), ref_or(v, schema))).collect(),
    }
}

#[verifier::external_body]
fn document(spec: &openapiv3::OpenAPI) -> OpenApiDocument {
    OpenApiDocument {
        title: spec.info.title.clone(),
        version: spec.info.version.clone(),
        description: spec.info.description.clone(),
        server_urls: spec.servers.iter().map(|s| s.url.clone()).collect(),
        paths: spec.paths.paths.iter().map(|(p, r)| (p.clone(), ref_or(r, path_item))).collect(),
        components: spec.components.as_ref().map(components),
    }
}

} // verus!
