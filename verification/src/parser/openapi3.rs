//! OpenAPI 3.x documents: decoded from JSON or YAML text by `openapiv3`
//! (see [`decode`]), then read into an API description.
//!
//! The document model holds the parts of an OpenAPI document the guide reads.
//! Maps are vectors of entries in document order; [`RefOr::Reference`]
//! stands where the document has a `$ref`.
pub(crate) mod decode;

use crate::ir::{opt_schema_view, 
    opt_view, ApiSpec, ApiSpecView, AuthMethod, AuthMethodView, Endpoint, EndpointView,
    HttpMethod, Parameter, ParameterLocation, ParameterView, RequestBody, RequestBodyView,
    Response, ResponseView, Schema, SchemaProperty, SchemaPropertyView, SchemaView, SpecFormat,
};
use crate::parser::graphql::min;
use crate::parser::swagger2::or_empty;
use crate::text::{
    contains_str, contains_text, eq_ignore_ascii_case, eq_ignore_ascii_case_text, owned,
    keys_unique, strings_view, trim_start_text, trimmed_starts_with,
};
use crate::parser::openapi3::decode::{decode_openapi3_json, decode_openapi3_yaml};
use crate::security::{MAX_ENDPOINTS, MAX_SCHEMA_PROPERTIES};
use crate::error::GuardError;
use crate::parser::{parse_outcome, ApiParser, SpecSource};
use vstd::prelude::*;
use vstd::string::*;

verus! {

/// The OpenAPI 3.x parser.
pub struct OpenApi3Parser;

/// An item given in place, or a `$ref` to one given elsewhere.
pub enum RefOr<T> {
    Item(T),
    Reference,
}

/// An OpenAPI 3.x document.
pub struct OpenApiDocument {
    pub title: String,
    pub version: String,
    pub description: Option<String>,
    /// The URLs of the servers, in order.
    pub server_urls: Vec<String>,
    pub paths: Vec<(String, RefOr<PathItemObject>)>,
    pub components: Option<ComponentsObject>,
}

impl OpenApiDocument {
    /// The maps of the document keep their keys unique: paths, and the
    /// components' schemas and security schemes.
    pub open spec fn well_formed(self) -> bool {
        &&& keys_unique(self.paths@)
        &&& match self.components {
            Some(c) => keys_unique(c.schemas@) && keys_unique(c.security_schemes@),
            None => true,
        }
    }
}

pub struct ComponentsObject {
    pub security_schemes: Vec<(String, RefOr<SecuritySchemeObject>)>,
    pub schemas: Vec<(String, RefOr<SchemaObject>)>,
}

pub enum ApiKeyLocation {
    Query,
    Header,
    Cookie,
}

pub enum SecuritySchemeObject {
    ApiKey { location: ApiKeyLocation, name: String },
    Http { scheme: String },
    /// Which of the four OAuth2 flows the scheme configures.
    OAuth2 { implicit: bool, password: bool, client_credentials: bool, authorization_code: bool },
    OpenIdConnect,
}

pub struct PathItemObject {
    pub get: Option<OperationObject>,
    pub put: Option<OperationObject>,
    pub post: Option<OperationObject>,
    pub delete: Option<OperationObject>,
    pub options: Option<OperationObject>,
    pub head: Option<OperationObject>,
    pub patch: Option<OperationObject>,
}

pub struct OperationObject {
    pub tags: Vec<String>,
    pub summary: Option<String>,
    pub description: Option<String>,
    pub parameters: Vec<RefOr<ParameterObject>>,
    pub request_body: Option<RefOr<RequestBodyObject>>,
    pub responses: ResponsesObject,
}

pub struct ParameterObject {
    pub location: ParameterLocation,
    pub name: String,
    pub description: Option<String>,
    pub required: bool,
    pub format: ParameterFormat,
}

/// How a parameter's type is given: by a schema or by a content map.
pub enum ParameterFormat {
    Schema(RefOr<SchemaType>),
    Content,
}

pub struct RequestBodyObject {
    pub description: Option<String>,
    /// Media types with their optional schemas, in order.
    pub content: Vec<(String, Option<RefOr<SchemaObject>>)>,
    pub required: bool,
}

pub struct ResponsesObject {
    pub default: Option<RefOr<ResponseObject>>,
    /// Status codes (as written) with their responses, in order.
    pub responses: Vec<(String, RefOr<ResponseObject>)>,
}

pub struct ResponseObject {
    pub description: String,
    /// Media types with their optional schemas, in order.
    pub content: Vec<(String, Option<RefOr<SchemaObject>>)>,
}

/// The kind of a schema: one of the six types, or anything else.
#[derive(Clone, Copy, PartialEq, Eq, Structural)]
pub enum SchemaType {
    String,
    Number,
    Integer,
    Boolean,
    Object,
    Array,
    Any,
}

pub struct SchemaObject {
    pub description: Option<String>,
    pub kind: SchemaType,
    /// For objects: the required property names.
    pub required: Vec<String>,
    /// For objects: the properties, in order.
    pub properties: Vec<(String, RefOr<PropertySchema>)>,
    /// For strings: the enumeration, `None` for a `null` entry.
    pub enumeration: Vec<Option<String>>,
}

/// A property's own schema: its kind and description.
pub struct PropertySchema {
    pub kind: SchemaType,
    pub description: Option<String>,
}

// ---------------------------------------------------------------------------
// Schemas
// ---------------------------------------------------------------------------
pub open spec fn schema_type_text(k: SchemaType) -> Seq<char> {
    match k {
        SchemaType::String => "string"@,
        SchemaType::Number => "number"@,
        SchemaType::Integer => "integer"@,
        SchemaType::Boolean => "boolean"@,
        SchemaType::Object => "object"@,
        SchemaType::Array => "array"@,
        SchemaType::Any => "any"@,
    }
}

/// The name of a schema kind: `string`, `number`, ..., or `any`.
pub fn schema_type_name(k: SchemaType) -> (r: String)
    ensures
        r@ == schema_type_text(k),
{
    match k {
        SchemaType::String => owned("string"),
        SchemaType::Number => owned("number"),
        SchemaType::Integer => owned("integer"),
        SchemaType::Boolean => owned("boolean"),
        SchemaType::Object => owned("object"),
        SchemaType::Array => owned("array"),
        SchemaType::Any => owned("any"),
    }
}

pub open spec fn object_property(required: Seq<Seq<char>>, entry: (String, RefOr<PropertySchema>)) -> SchemaPropertyView {
    SchemaPropertyView {
        name: entry.0@,
        type_label: match entry.1 {
            RefOr::Item(p) => schema_type_text(p.kind),
            RefOr::Reference => "string"@,
        },
        description: match entry.1 {
            RefOr::Item(p) => or_empty(p.description),
            RefOr::Reference => Seq::empty(),
        },
        required: required.contains(entry.0@),
    }
}

/// The `Some` entries of a string enumeration.
pub open spec fn present_values(vs: Seq<Option<String>>) -> Seq<Seq<char>>
    decreases vs.len(),
{
    if vs.len() == 0 {
        Seq::empty()
    } else {
        let prev = present_values(vs.drop_last());
        match vs.last() {
            Some(v) => prev.push(v@),
            None => prev,
        }
    }
}

/// A schema named `name`; an object schema takes the name as its type, and
/// its format holds the schema's description.
pub open spec fn converted_schema(name: Seq<char>, s: SchemaObject) -> SchemaView {
    let t = schema_type_text(s.kind);
    SchemaView {
        type_label: if s.kind == SchemaType::Object {
            name
        } else {
            t
        },
        format: opt_view(s.description),
        properties: if s.kind == SchemaType::Object {
            s.properties@.take(min(s.properties@.len() as int, MAX_SCHEMA_PROPERTIES as int)).map_values(
                |e: (String, RefOr<PropertySchema>)| object_property(strings_view(s.required@), e),
            )
        } else {
            Seq::empty()
        },
        required_fields: if s.kind == SchemaType::Object {
            strings_view(s.required@)
        } else {
            Seq::empty()
        },
        enum_values: if s.kind == SchemaType::String {
            present_values(s.enumeration@)
        } else {
            Seq::empty()
        },
        description: or_empty(s.description),
    }
}

fn or_empty_of(o: &Option<String>) -> (r: String)
    ensures
        r@ == or_empty(*o),
{
    match o {
        Some(s) => s.clone(),
        None => String::new(),
    }
}

fn clone_strings(v: &Vec<String>) -> (r: Vec<String>)
    ensures
        strings_view(r@) == strings_view(v@),
{
    let mut r: Vec<String> = Vec::new();
    let mut i: usize = 0;
    while i < v.len()
        invariant
            i <= v@.len(),
            r@.len() == i,
            forall|k: int| 0 <= k < i ==> #[trigger] r@[k]@ == v@[k]@,
        decreases v@.len() - i,
    {
        r.push(v[i].clone());
        i = i + 1;
    }
    assert(strings_view(r@) =~= strings_view(v@));
    r
}

fn contains_string(v: &Vec<String>, s: &String) -> (r: bool)
    ensures
        r == strings_view(v@).contains(s@),
{
    let mut i: usize = 0;
    while i < v.len()
        invariant
            i <= v@.len(),
            forall|k: int| 0 <= k < i ==> v@[k]@ != s@,
        decreases v@.len() - i,
    {
        if crate::text::str_eq(v[i].as_str(), s.as_str()) {
            assert(strings_view(v@)[i as int] == s@);
            return true;
        }
        i = i + 1;
    }
    assert forall|k: int| 0 <= k < strings_view(v@).len() implies strings_view(v@)[k] != s@ by {
        assert(strings_view(v@)[k] == v@[k]@);
    }
    false
}

fn object_properties_of(s: &SchemaObject) -> (r: Vec<SchemaProperty>)
    ensures
        crate::ir::properties_view(r@) == s.properties@.take(
            min(s.properties@.len() as int, MAX_SCHEMA_PROPERTIES as int),
        ).map_values(
            |e: (String, RefOr<PropertySchema>)| object_property(strings_view(s.required@), e),
        ),
{
    let mut r: Vec<SchemaProperty> = Vec::new();
    let mut i: usize = 0;
    while i < s.properties.len() && i < MAX_SCHEMA_PROPERTIES
        invariant
            i <= s.properties@.len(),
            i <= MAX_SCHEMA_PROPERTIES,
            r@.len() == i,
            forall|k: int|
                0 <= k < i ==> #[trigger] r@[k]@ == object_property(
                    strings_view(s.required@),
                    s.properties@[k],
                ),
        decreases s.properties@.len() - i,
    {
        let e = &s.properties[i];
        let (type_label, description) = match &e.1 {
            RefOr::Item(p) => (schema_type_name(p.kind), or_empty_of(&p.description)),
            RefOr::Reference => (owned("string"), String::new()),
        };
        r.push(
            SchemaProperty {
                name: e.0.clone(),
                type_label,
                description,
                required: contains_string(&s.required, &e.0),
            },
        );
        i = i + 1;
    }
    assert(crate::ir::properties_view(r@) =~= s.properties@.take(
        min(s.properties@.len() as int, MAX_SCHEMA_PROPERTIES as int),
    ).map_values(
        |e: (String, RefOr<PropertySchema>)| object_property(strings_view(s.required@), e),
    ));
    r
}

fn present_values_of(vs: &Vec<Option<String>>) -> (r: Vec<String>)
    ensures
        strings_view(r@) == present_values(vs@),
{
    let mut r: Vec<String> = Vec::new();
    let mut i: usize = 0;
    while i < vs.len()
        invariant
            i <= vs@.len(),
            strings_view(r@) == present_values(vs@.take(i as int)),
        decreases vs@.len() - i,
    {
        assert(vs@.take(i + 1).drop_last() =~= vs@.take(i as int));
        match &vs[i] {
            Some(v) => {
                r.push(v.clone());
                assert(strings_view(r@) =~= present_values(vs@.take(i as int)).push(v@));
            },
            None => {},
        }
        i = i + 1;
    }
    assert(vs@.take(vs@.len() as int) =~= vs@);
    r
}

/// The schema named `name`.
pub fn convert_schema(name: &str, s: &SchemaObject) -> (r: Schema)
    ensures
        r@ == converted_schema(name@, *s),
{
    let kind_name = schema_type_name(s.kind);
    let description = or_empty_of(&s.description);
    let mut properties: Vec<SchemaProperty> = Vec::new();
    let mut required_fields: Vec<String> = Vec::new();
    let mut enum_values: Vec<String> = Vec::new();
    match s.kind {
        SchemaType::Object => {
            required_fields = clone_strings(&s.required);
            properties = object_properties_of(s);
        },
        SchemaType::String => {
            enum_values = present_values_of(&s.enumeration);
        },
        _ => {},
    }
    let type_label = if s.kind == SchemaType::Object {
        owned(name)
    } else {
        kind_name
    };
    let format = match &s.description {
        Some(d) => Some(d.clone()),
        None => None,
    };
    let r = Schema { type_label, format, properties, required_fields, enum_values, description };
    proof {
        if s.kind != SchemaType::Object {
            assert(crate::ir::properties_view(r.properties@) =~= Seq::<SchemaPropertyView>::empty());
            assert(strings_view(r.required_fields@) =~= Seq::<Seq<char>>::empty());
        }
        if s.kind != SchemaType::String {
            assert(strings_view(r.enum_values@) =~= Seq::<Seq<char>>::empty());
        }
    }
    r
}

pub open spec fn component_schemas(entries: Seq<(String, RefOr<SchemaObject>)>) -> Seq<SchemaView>
    decreases entries.len(),
{
    if entries.len() == 0 {
        Seq::empty()
    } else {
        let prev = component_schemas(entries.drop_last());
        match entries.last().1 {
            RefOr::Item(s) => prev.push(converted_schema(entries.last().0@, s)),
            RefOr::Reference => prev,
        }
    }
}

/// The schemas of the document's components, `$ref` entries left out.
pub open spec fn document_schemas(doc: OpenApiDocument) -> Seq<SchemaView> {
    match doc.components {
        Some(c) => component_schemas(c.schemas@),
        None => Seq::empty(),
    }
}

/// The document's component schemas.
pub fn extract_schemas(doc: &OpenApiDocument) -> (r: Vec<Schema>)
    ensures
        crate::ir::schemas_view(r@) == document_schemas(*doc),
{
    let mut schemas: Vec<Schema> = Vec::new();
    if let Some(components) = &doc.components {
        let entries = &components.schemas;
        let mut i: usize = 0;
        while i < entries.len()
            invariant
                i <= entries@.len(),
                crate::ir::schemas_view(schemas@) == component_schemas(entries@.take(i as int)),
            decreases entries@.len() - i,
        {
            assert(entries@.take(i + 1).drop_last() =~= entries@.take(i as int));
            match &entries[i].1 {
                RefOr::Item(s) => {
                    let c = convert_schema(entries[i].0.as_str(), s);
                    let ghost cv = c@;
                    schemas.push(c);
                    assert(crate::ir::schemas_view(schemas@) =~= component_schemas(
                        entries@.take(i as int),
                    ).push(cv));
                },
                RefOr::Reference => {},
            }
            i = i + 1;
        }
        assert(entries@.take(entries@.len() as int) =~= entries@);
    } else {
        assert(crate::ir::schemas_view(schemas@) =~= Seq::<SchemaView>::empty());
    }
    schemas
}

// ---------------------------------------------------------------------------
// Authentication
// ---------------------------------------------------------------------------
pub open spec fn api_key_location_text(l: ApiKeyLocation) -> Seq<char> {
    match l {
        ApiKeyLocation::Query => "query"@,
        ApiKeyLocation::Header => "header"@,
        ApiKeyLocation::Cookie => "cookie"@,
    }
}

/// The names of the OAuth2 flows a scheme configures, in a fixed order.
pub open spec fn oauth2_flow_names(
    implicit: bool,
    password: bool,
    client_credentials: bool,
    authorization_code: bool,
) -> Seq<Seq<char>> {
    (if implicit {
        seq!["implicit"@]
    } else {
        Seq::empty()
    }) + (if password {
        seq!["password"@]
    } else {
        Seq::empty()
    }) + (if client_credentials {
        seq!["client_credentials"@]
    } else {
        Seq::empty()
    }) + (if authorization_code {
        seq!["authorization_code"@]
    } else {
        Seq::empty()
    })
}

/// The authentication method of a security scheme; an HTTP scheme counts only
/// when it is `bearer` or `basic`, in any ASCII case.
pub open spec fn scheme_auth(s: SecuritySchemeObject) -> Option<AuthMethodView> {
    match s {
        SecuritySchemeObject::ApiKey { location, name } => Some(
            AuthMethodView::ApiKey { location: api_key_location_text(location), name: name@ },
        ),
        SecuritySchemeObject::Http { scheme } => if eq_ignore_ascii_case_text(scheme@, "bearer"@) {
            Some(AuthMethodView::Bearer)
        } else if eq_ignore_ascii_case_text(scheme@, "basic"@) {
            Some(AuthMethodView::Basic)
        } else {
            None
        },
        SecuritySchemeObject::OAuth2 { implicit, password, client_credentials, authorization_code } => Some(
            AuthMethodView::OAuth2 {
                flows: oauth2_flow_names(implicit, password, client_credentials, authorization_code),
            },
        ),
        SecuritySchemeObject::OpenIdConnect => Some(
            AuthMethodView::OAuth2 { flows: seq!["openid_connect"@] },
        ),
    }
}

pub open spec fn scheme_auths(entries: Seq<(String, RefOr<SecuritySchemeObject>)>) -> Seq<AuthMethodView>
    decreases entries.len(),
{
    if entries.len() == 0 {
        Seq::empty()
    } else {
        let prev = scheme_auths(entries.drop_last());
        match entries.last().1 {
            RefOr::Item(s) => match scheme_auth(s) {
                Some(a) => prev.push(a),
                None => prev,
            },
            RefOr::Reference => prev,
        }
    }
}

/// The authentication methods of the document; `None` alone when it has none.
pub open spec fn document_auths(doc: OpenApiDocument) -> Seq<AuthMethodView> {
    let found = match doc.components {
        Some(c) => scheme_auths(c.security_schemes@),
        None => Seq::empty(),
    };
    if found.len() == 0 {
        seq![AuthMethodView::NoAuth]
    } else {
        found
    }
}

fn flow_names_of(implicit: bool, password: bool, client_credentials: bool, authorization_code: bool) -> (r: Vec<String>)
    ensures
        strings_view(r@) == oauth2_flow_names(implicit, password, client_credentials, authorization_code),
{
    let mut r: Vec<String> = Vec::new();
    if implicit {
        r.push(owned("implicit"));
    }
    if password {
        r.push(owned("password"));
    }
    if client_credentials {
        r.push(owned("client_credentials"));
    }
    if authorization_code {
        r.push(owned("authorization_code"));
    }
    assert(strings_view(r@) =~= oauth2_flow_names(
        implicit,
        password,
        client_credentials,
        authorization_code,
    ));
    r
}

/// An `http` scheme gives bearer authentication exactly when its scheme is
/// `bearer` (in any letter case), basic exactly when it is `basic`, and no
/// method otherwise.
pub proof fn lemma_http_scheme_auth(scheme: String)
    ensures
        scheme_auth(SecuritySchemeObject::Http { scheme }) == Some(AuthMethodView::Bearer)
            <==> eq_ignore_ascii_case_text(scheme@, "bearer"@),
        scheme_auth(SecuritySchemeObject::Http { scheme }) == Some(AuthMethodView::Basic)
            <==> eq_ignore_ascii_case_text(scheme@, "basic"@),
        scheme_auth(SecuritySchemeObject::Http { scheme }) is None <==> !eq_ignore_ascii_case_text(
            scheme@,
            "bearer"@,
        ) && !eq_ignore_ascii_case_text(scheme@, "basic"@),
{
    reveal_strlit("bearer");
    reveal_strlit("basic");
    if eq_ignore_ascii_case_text(scheme@, "bearer"@) {
        assert(!eq_ignore_ascii_case_text(scheme@, "basic"@));
    }
}

/// The place an API key is sent, as the library names places.
pub open spec fn api_key_place(l: ApiKeyLocation) -> ParameterLocation {
    match l {
        ApiKeyLocation::Query => ParameterLocation::Query,
        ApiKeyLocation::Header => ParameterLocation::Header,
        ApiKeyLocation::Cookie => ParameterLocation::Cookie,
    }
}

/// An `apiKey` scheme gives an API-key method with the scheme's own key
/// name, whose location is the place the scheme declares: `query` for
/// query, `header` for header, `cookie` for cookie.
pub proof fn lemma_api_key_keeps_location(location: ApiKeyLocation, name: String)
    ensures
        scheme_auth(SecuritySchemeObject::ApiKey { location, name }) == Some(
            AuthMethodView::ApiKey { location: api_key_place(location).text(), name: name@ },
        ),
        location == ApiKeyLocation::Query ==> api_key_place(location).text() == "query"@,
        location == ApiKeyLocation::Header ==> api_key_place(location).text() == "header"@,
        location == ApiKeyLocation::Cookie ==> api_key_place(location).text() == "cookie"@,
{
}

fn scheme_auth_of(s: &SecuritySchemeObject) -> (r: Option<AuthMethod>)
    ensures
        match r {
            Some(a) => scheme_auth(*s) == Some(a@),
            None => scheme_auth(*s) is None,
        },
{
    match s {
        SecuritySchemeObject::ApiKey { location, name } => {
            let loc = match location {
                ApiKeyLocation::Query => owned("query"),
                ApiKeyLocation::Header => owned("header"),
                ApiKeyLocation::Cookie => owned("cookie"),
            };
            Some(AuthMethod::ApiKey { location: loc, name: name.clone() })
        },
        SecuritySchemeObject::Http { scheme } => {
            if eq_ignore_ascii_case(scheme.as_str(), "bearer") {
                Some(AuthMethod::Bearer)
            } else if eq_ignore_ascii_case(scheme.as_str(), "basic") {
                Some(AuthMethod::Basic)
            } else {
                None
            }
        },
        SecuritySchemeObject::OAuth2 { implicit, password, client_credentials, authorization_code } => {
            let flows = flow_names_of(*implicit, *password, *client_credentials, *authorization_code);
            Some(AuthMethod::OAuth2 { flows })
        },
        SecuritySchemeObject::OpenIdConnect => {
            let flows = vec![owned("openid_connect")];
            assert(strings_view(flows@) =~= seq!["openid_connect"@]);
            Some(AuthMethod::OAuth2 { flows })
        },
    }
}

/// The authentication methods of the document's security schemes.
pub fn extract_auth_methods(doc: &OpenApiDocument) -> (r: Vec<AuthMethod>)
    ensures
        crate::ir::auths_view(r@) == document_auths(*doc),
{
    let mut methods: Vec<AuthMethod> = Vec::new();
    if let Some(components) = &doc.components {
        let entries = &components.security_schemes;
        let mut i: usize = 0;
        while i < entries.len()
            invariant
                i <= entries@.len(),
                crate::ir::auths_view(methods@) == scheme_auths(entries@.take(i as int)),
            decreases entries@.len() - i,
        {
            assert(entries@.take(i + 1).drop_last() =~= entries@.take(i as int));
            match &entries[i].1 {
                RefOr::Item(s) => {
                    match scheme_auth_of(s) {
                        Some(a) => {
                            let ghost av = a@;
                            methods.push(a);
                            assert(crate::ir::auths_view(methods@) =~= scheme_auths(
                                entries@.take(i as int),
                            ).push(av));
                        },
                        None => {},
                    }
                },
                RefOr::Reference => {},
            }
            i = i + 1;
        }
        assert(entries@.take(entries@.len() as int) =~= entries@);
    } else {
        assert(crate::ir::auths_view(methods@) =~= Seq::<AuthMethodView>::empty());
    }
    if methods.len() == 0 {
        methods.push(AuthMethod::NoAuth);
        assert(crate::ir::auths_view(methods@) =~= seq![AuthMethodView::NoAuth]);
    }
    methods
}

// ---------------------------------------------------------------------------
// Parameters, request bodies, responses
// ---------------------------------------------------------------------------
/// A parameter's type: its schema's kind, `string` for a `$ref` schema,
/// `object` when given by content.
pub open spec fn parameter_type_text(f: ParameterFormat) -> Seq<char> {
    match f {
        ParameterFormat::Schema(RefOr::Item(k)) => schema_type_text(k),
        ParameterFormat::Schema(RefOr::Reference) => "string"@,
        ParameterFormat::Content => "object"@,
    }
}

pub open spec fn converted_parameter(p: ParameterObject) -> ParameterView {
    ParameterView {
        name: p.name@,
        location: p.location,
        description: or_empty(p.description),
        required: p.required,
        schema_type: parameter_type_text(p.format),
    }
}

/// An OpenAPI parameter keeps its name, its location and its `required`
/// flag.
pub proof fn lemma_converted_parameter_kept(p: ParameterObject)
    ensures
        converted_parameter(p).name == p.name@,
        converted_parameter(p).location == p.location,
        converted_parameter(p).required == p.required,
{
}

/// The parameters given in place, `$ref` entries left out.
pub open spec fn converted_parameters(ps: Seq<RefOr<ParameterObject>>) -> Seq<ParameterView>
    decreases ps.len(),
{
    if ps.len() == 0 {
        Seq::empty()
    } else {
        let prev = converted_parameters(ps.drop_last());
        match ps.last() {
            RefOr::Item(p) => prev.push(converted_parameter(p)),
            RefOr::Reference => prev,
        }
    }
}

/// The type of a parameter.
pub fn extract_schema_type_from_parameter_data(f: &ParameterFormat) -> (r: String)
    ensures
        r@ == parameter_type_text(*f),
{
    match f {
        ParameterFormat::Schema(RefOr::Item(k)) => schema_type_name(*k),
        ParameterFormat::Schema(RefOr::Reference) => owned("string"),
        ParameterFormat::Content => owned("object"),
    }
}

/// The parameters of an operation, `$ref` entries left out.
pub fn extract_parameters(ps: &Vec<RefOr<ParameterObject>>) -> (r: Vec<Parameter>)
    ensures
        crate::ir::parameters_view(r@) == converted_parameters(ps@),
{
    let mut r: Vec<Parameter> = Vec::new();
    let mut i: usize = 0;
    while i < ps.len()
        invariant
            i <= ps@.len(),
            crate::ir::parameters_view(r@) == converted_parameters(ps@.take(i as int)),
        decreases ps@.len() - i,
    {
        assert(ps@.take(i + 1).drop_last() =~= ps@.take(i as int));
        match &ps[i] {
            RefOr::Item(p) => {
                let param = Parameter {
                    name: p.name.clone(),
                    location: p.location,
                    description: or_empty_of(&p.description),
                    required: p.required,
                    schema_type: extract_schema_type_from_parameter_data(&p.format),
                };
                let ghost pv = param@;
                r.push(param);
                assert(crate::ir::parameters_view(r@) =~= converted_parameters(
                    ps@.take(i as int),
                ).push(pv));
            },
            RefOr::Reference => {},
        }
        i = i + 1;
    }
    assert(ps@.take(ps@.len() as int) =~= ps@);
    r
}

/// A request body: the first media type with its schema (named
/// `RequestBody`), or `application/json` with none when there is no content.
pub open spec fn converted_request_body(b: RequestBodyObject) -> RequestBodyView {
    RequestBodyView {
        content_type: if b.content@.len() > 0 {
            b.content@[0].0@
        } else {
            "application/json"@
        },
        schema: if b.content@.len() > 0 {
            match b.content@[0].1 {
                Some(RefOr::Item(s)) => Some(converted_schema("RequestBody"@, s)),
                _ => None,
            }
        } else {
            None
        },
        required: b.required,
        description: or_empty(b.description),
    }
}

/// The request body of an operation.
pub fn convert_request_body(b: &RequestBodyObject) -> (r: RequestBody)
    ensures
        r@ == converted_request_body(*b),
{
    let (content_type, schema) = if b.content.len() > 0 {
        let entry = &b.content[0];
        let schema = match &entry.1 {
            Some(RefOr::Item(s)) => Some(convert_schema("RequestBody", s)),
            _ => None,
        };
        (entry.0.clone(), schema)
    } else {
        (owned("application/json"), None)
    };
    RequestBody {
        content_type,
        schema,
        required: b.required,
        description: or_empty_of(&b.description),
    }
}

/// The schema of the first media type, when it is written out in place
/// (named `name`); none for a `$ref` or when there is no content.
pub open spec fn first_media_schema(
    content: Seq<(String, Option<RefOr<SchemaObject>>)>,
    name: Seq<char>,
) -> Option<SchemaView> {
    if content.len() > 0 {
        match content[0].1 {
            Some(RefOr::Item(s)) => Some(converted_schema(name, s)),
            _ => None,
        }
    } else {
        None
    }
}

fn first_media_schema_of(content: &Vec<(String, Option<RefOr<SchemaObject>>)>, name: &str) -> (r:
    Option<Schema>)
    ensures
        opt_schema_view(r) == first_media_schema(content@, name@),
{
    if content.len() > 0 {
        match &content[0].1 {
            Some(RefOr::Item(s)) => Some(convert_schema(name, s)),
            _ => None,
        }
    } else {
        None
    }
}

/// A response with its description and the schema of its first media type
/// (named `Response`).
pub open spec fn converted_response(status: Seq<char>, r: ResponseObject) -> ResponseView {
    ResponseView {
        status_code: status,
        description: r.description@,
        schema: first_media_schema(r.content@, "Response"@),
    }
}

fn convert_response(status: String, r: &ResponseObject) -> (out: Response)
    ensures
        out@ == converted_response(status@, *r),
{
    Response {
        status_code: status,
        description: r.description.clone(),
        schema: first_media_schema_of(&r.content, "Response"),
    }
}

pub open spec fn status_responses(rs: Seq<(String, RefOr<ResponseObject>)>) -> Seq<ResponseView>
    decreases rs.len(),
{
    if rs.len() == 0 {
        Seq::empty()
    } else {
        let prev = status_responses(rs.drop_last());
        match rs.last().1 {
            RefOr::Item(r) => prev.push(converted_response(rs.last().0@, r)),
            RefOr::Reference => prev,
        }
    }
}

/// The default response first, then the responses by status code, `$ref`
/// entries left out.
pub open spec fn converted_responses(rs: ResponsesObject) -> Seq<ResponseView> {
    (match rs.default {
        Some(RefOr::Item(r)) => seq![converted_response("default"@, r)],
        _ => Seq::empty(),
    }) + status_responses(rs.responses@)
}

/// The responses of an operation.
pub fn extract_responses(rs: &ResponsesObject) -> (r: Vec<Response>)
    ensures
        crate::ir::responses_view(r@) == converted_responses(*rs),
{
    let mut r: Vec<Response> = Vec::new();
    if let Some(RefOr::Item(d)) = &rs.default {
        r.push(convert_response(owned("default"), d));
    }
    let ghost head = crate::ir::responses_view(r@);
    let entries = &rs.responses;
    let mut i: usize = 0;
    while i < entries.len()
        invariant
            i <= entries@.len(),
            crate::ir::responses_view(r@) == head + status_responses(entries@.take(i as int)),
        decreases entries@.len() - i,
    {
        assert(entries@.take(i + 1).drop_last() =~= entries@.take(i as int));
        match &entries[i].1 {
            RefOr::Item(resp) => {
                let item = convert_response(entries[i].0.clone(), resp);
                let ghost iv = item@;
                let ghost before = crate::ir::responses_view(r@);
                r.push(item);
                assert(crate::ir::responses_view(r@) =~= before.push(iv));
                assert(before.push(iv) =~= head + status_responses(entries@.take(i as int)).push(iv));
            },
            RefOr::Reference => {},
        }
        i = i + 1;
    }
    assert(entries@.take(entries@.len() as int) =~= entries@);
    proof {
        match &rs.default {
            Some(RefOr::Item(d)) => {
                assert(head =~= seq![converted_response("default"@, *d)]);
            },
            _ => {
                assert(head =~= Seq::<ResponseView>::empty());
            },
        }
        assert(crate::ir::responses_view(r@) =~= converted_responses(*rs));
    }
    r
}

// ---------------------------------------------------------------------------
// Endpoints
// ---------------------------------------------------------------------------
/// The operations of a path item, in the order get, post, put, patch,
/// delete, head, options.
pub open spec fn path_item_operations(pi: PathItemObject) -> Seq<(HttpMethod, Option<OperationObject>)> {
    seq![
        (HttpMethod::Get, pi.get),
        (HttpMethod::Post, pi.post),
        (HttpMethod::Put, pi.put),
        (HttpMethod::Patch, pi.patch),
        (HttpMethod::Delete, pi.delete),
        (HttpMethod::Head, pi.head),
        (HttpMethod::Options, pi.options),
    ]
}

pub open spec fn operation_endpoint(path: Seq<char>, method: HttpMethod, op: OperationObject) -> EndpointView {
    EndpointView {
        path,
        method,
        summary: or_empty(op.summary),
        description: or_empty(op.description),
        parameters: converted_parameters(op.parameters@),
        request_body: match op.request_body {
            Some(RefOr::Item(b)) => Some(converted_request_body(b)),
            _ => None,
        },
        responses: converted_responses(op.responses),
        tags: strings_view(op.tags@),
    }
}

/// The endpoints of the operations that are present.
pub open spec fn operations_endpoints(path: Seq<char>, ops: Seq<(HttpMethod, Option<OperationObject>)>) -> Seq<
    EndpointView,
>
    decreases ops.len(),
{
    if ops.len() == 0 {
        Seq::empty()
    } else {
        let prev = operations_endpoints(path, ops.drop_last());
        match ops.last().1 {
            Some(op) => prev.push(operation_endpoint(path, ops.last().0, op)),
            None => prev,
        }
    }
}

/// The operation a path item holds for `m`: its `get` for GET, its `post`
/// for POST, and so on.
pub open spec fn operation_for(pi: PathItemObject, m: HttpMethod) -> Option<OperationObject> {
    match m {
        HttpMethod::Get => pi.get,
        HttpMethod::Post => pi.post,
        HttpMethod::Put => pi.put,
        HttpMethod::Patch => pi.patch,
        HttpMethod::Delete => pi.delete,
        HttpMethod::Head => pi.head,
        HttpMethod::Options => pi.options,
    }
}

proof fn lemma_operations_endpoints_match(
    path: Seq<char>,
    pi: PathItemObject,
    ops: Seq<(HttpMethod, Option<OperationObject>)>,
)
    requires
        forall|j: int| 0 <= j < ops.len() ==> operation_for(pi, (#[trigger] ops[j]).0) == ops[j].1,
    ensures
        forall|i: int|
            0 <= i < operations_endpoints(path, ops).len() ==> {
                let e = #[trigger] operations_endpoints(path, ops)[i];
                operation_for(pi, e.method) matches Some(op) && e == operation_endpoint(
                    path,
                    e.method,
                    op,
                )
            },
    decreases ops.len(),
{
    if ops.len() > 0 {
        let rest = ops.drop_last();
        assert forall|j: int| 0 <= j < rest.len() implies operation_for(pi, (#[trigger] rest[j]).0)
            == rest[j].1 by {
            assert(rest[j] == ops[j]);
        }
        lemma_operations_endpoints_match(path, pi, rest);
        assert(operation_for(pi, ops[ops.len() - 1].0) == ops[ops.len() - 1].1);
    }
}

/// Each endpoint of a path item is the operation that the item holds for
/// the endpoint's method: a `post` operation gives a POST endpoint, never
/// another method.
pub proof fn lemma_path_item_methods(path: Seq<char>, pi: PathItemObject)
    ensures
        forall|i: int|
            0 <= i < operations_endpoints(path, path_item_operations(pi)).len() ==> {
                let e = #[trigger] operations_endpoints(path, path_item_operations(pi))[i];
                operation_for(pi, e.method) matches Some(op) && e == operation_endpoint(
                    path,
                    e.method,
                    op,
                )
            },
{
    let ops = path_item_operations(pi);
    assert forall|j: int| 0 <= j < ops.len() implies operation_for(pi, (#[trigger] ops[j]).0)
        == ops[j].1 by {
    }
    lemma_operations_endpoints_match(path, pi, ops);
}

/// The endpoints of all paths given in place, in order.
pub open spec fn all_paths_endpoints(paths: Seq<(String, RefOr<PathItemObject>)>) -> Seq<EndpointView>
    decreases paths.len(),
{
    if paths.len() == 0 {
        Seq::empty()
    } else {
        all_paths_endpoints(paths.drop_last()) + match paths.last().1 {
            RefOr::Item(pi) => operations_endpoints(paths.last().0@, path_item_operations(pi)),
            RefOr::Reference => Seq::empty(),
        }
    }
}

/// The first `MAX_ENDPOINTS` endpoints of the document.
pub open spec fn document_endpoints(doc: OpenApiDocument) -> Seq<EndpointView> {
    let all = all_paths_endpoints(doc.paths@);
    all.take(min(all.len() as int, MAX_ENDPOINTS as int))
}

fn operation_at(pi: &PathItemObject, k: usize) -> (r: (HttpMethod, &Option<OperationObject>))
    requires
        k < 7,
    ensures
        (r.0, *r.1) == path_item_operations(*pi)[k as int],
{
    if k == 0 {
        (HttpMethod::Get, &pi.get)
    } else if k == 1 {
        (HttpMethod::Post, &pi.post)
    } else if k == 2 {
        (HttpMethod::Put, &pi.put)
    } else if k == 3 {
        (HttpMethod::Patch, &pi.patch)
    } else if k == 4 {
        (HttpMethod::Delete, &pi.delete)
    } else if k == 5 {
        (HttpMethod::Head, &pi.head)
    } else {
        (HttpMethod::Options, &pi.options)
    }
}

fn operation_endpoint_of(path: &String, method: HttpMethod, op: &OperationObject) -> (e: Endpoint)
    ensures
        e@ == operation_endpoint(path@, method, *op),
{
    let parameters = extract_parameters(&op.parameters);
    let request_body = match &op.request_body {
        Some(RefOr::Item(b)) => Some(convert_request_body(b)),
        _ => None,
    };
    let responses = extract_responses(&op.responses);
    Endpoint {
        path: path.clone(),
        method,
        summary: or_empty_of(&op.summary),
        description: or_empty_of(&op.description),
        parameters,
        request_body,
        responses,
        tags: clone_strings(&op.tags),
    }
}

proof fn lemma_take_push_capped(all: Seq<EndpointView>, e: EndpointView)
    ensures
        all.push(e).take(min(all.len() + 1 as int, MAX_ENDPOINTS as int)) == if all.len()
            < MAX_ENDPOINTS {
            all.take(min(all.len() as int, MAX_ENDPOINTS as int)).push(e)
        } else {
            all.take(min(all.len() as int, MAX_ENDPOINTS as int))
        },
{
    if all.len() < MAX_ENDPOINTS {
        assert(all.push(e).take((all.len() + 1) as int) =~= all.take(all.len() as int).push(e));
    } else {
        assert(all.push(e).take(MAX_ENDPOINTS as int) =~= all.take(MAX_ENDPOINTS as int));
    }
}

/// The endpoints of the document, at most `MAX_ENDPOINTS`.
pub fn extract_endpoints(doc: &OpenApiDocument) -> (r: Vec<Endpoint>)
    ensures
        crate::ir::endpoints_view(r@) == document_endpoints(*doc),
{
    let paths = &doc.paths;
    let mut endpoints: Vec<Endpoint> = Vec::new();
    let ghost mut all: Seq<EndpointView> = Seq::empty();
    let mut i: usize = 0;
    while i < paths.len()
        invariant
            i <= paths@.len(),
            all == all_paths_endpoints(paths@.take(i as int)),
            crate::ir::endpoints_view(endpoints@) == all.take(
                min(all.len() as int, MAX_ENDPOINTS as int),
            ),
        decreases paths@.len() - i,
    {
        assert(paths@.take(i + 1).drop_last() =~= paths@.take(i as int));
        let path = &paths[i].0;
        match &paths[i].1 {
            RefOr::Item(pi) => {
                let ghost ops = path_item_operations(*pi);
                let ghost before = all;
                let mut k: usize = 0;
                while k < 7
                    invariant
                        k <= 7,
                        ops == path_item_operations(*pi),
                        all == before + operations_endpoints(path@, ops.take(k as int)),
                        crate::ir::endpoints_view(endpoints@) == all.take(
                            min(all.len() as int, MAX_ENDPOINTS as int),
                        ),
                    decreases 7 - k,
                {
                    assert(ops.take(k + 1).drop_last() =~= ops.take(k as int));
                    let (method, op_opt) = operation_at(pi, k);
                    if let Some(op) = op_opt {
                        let e = operation_endpoint_of(path, method, op);
                        let ghost ev_item = e@;
                        let ghost ev_before = crate::ir::endpoints_view(endpoints@);
                        proof {
                            lemma_take_push_capped(all, ev_item);
                        }
                        if endpoints.len() < MAX_ENDPOINTS {
                            endpoints.push(e);
                            assert(crate::ir::endpoints_view(endpoints@) =~= ev_before.push(ev_item));
                        }
                        proof {
                            assert(before + operations_endpoints(path@, ops.take(k + 1))
                                =~= all.push(ev_item));
                            all = all.push(ev_item);
                        }
                    }
                    k = k + 1;
                }
                assert(ops.take(7) =~= ops);
            },
            RefOr::Reference => {
                assert(all == all_paths_endpoints(paths@.take(i + 1)));
            },
        }
        i = i + 1;
    }
    assert(paths@.take(paths@.len() as int) =~= paths@);
    endpoints
}

// ---------------------------------------------------------------------------
// The API description
// ---------------------------------------------------------------------------
/// The API description of an OpenAPI 3.x document.
pub open spec fn openapi3_spec(doc: OpenApiDocument) -> ApiSpecView {
    ApiSpecView {
        name: doc.title@,
        version: Some(doc.version@),
        description: or_empty(doc.description),
        base_url: if doc.server_urls@.len() > 0 {
            Some(doc.server_urls@[0]@)
        } else {
            None
        },
        spec_format: SpecFormat::OpenApi3,
        auth_methods: document_auths(doc),
        endpoints: document_endpoints(doc),
        schemas: document_schemas(doc),
    }
}

/// Whether the content looks like an OpenAPI 3.x document.
pub open spec fn openapi3_detected(content: Seq<char>) -> bool {
    contains_text(content, "openapi"@) && (contains_text(content, "\"3."@) || contains_text(
        content,
        "'3."@,
    ) || contains_text(content, "3."@))
}

/// What `serde_json` and `openapiv3` make of JSON text, in the library's
/// model: `None` when the text is not an OpenAPI 3.x JSON document.
pub uninterp spec fn openapi3_from_json(text: Seq<char>) -> Option<OpenApiDocument>;

/// What `serde_yml` and `openapiv3` make of YAML text, in the library's
/// model: `None` when the text is not an OpenAPI 3.x YAML document.
pub uninterp spec fn openapi3_from_yaml(text: Seq<char>) -> Option<OpenApiDocument>;

/// Whether OpenAPI text is read as JSON: its first non-whitespace character
/// is `{`; otherwise it is read as YAML.
pub open spec fn read_as_json(text: Seq<char>) -> bool {
    trim_start_text(text).len() > 0 && trim_start_text(text)[0] == '{'
}

/// The document that OpenAPI text decodes to, as JSON or as YAML.
pub open spec fn openapi3_text_document(text: Seq<char>) -> Option<OpenApiDocument> {
    if read_as_json(text) {
        openapi3_from_json(text)
    } else {
        openapi3_from_yaml(text)
    }
}

/// The error for OpenAPI text that does not decode.
pub open spec fn openapi3_decode_error(text: Seq<char>) -> GuardError {
    if read_as_json(text) {
        GuardError::MalformedJson(SpecFormat::OpenApi3)
    } else {
        GuardError::MalformedYaml(SpecFormat::OpenApi3)
    }
}

impl ApiParser for OpenApi3Parser {
    fn name(&self) -> (r: &'static str)
        ensures
            r@ == "OpenAPI 3.x"@,
    {
        "OpenAPI 3.x"
    }

    fn format(&self) -> (r: SpecFormat)
        ensures
            r == SpecFormat::OpenApi3,
    {
        SpecFormat::OpenApi3
    }

    /// Returns true if the content appears to be an OpenAPI 3.x document.
    fn detect(&self, content: &str) -> (r: bool)
        ensures
            r == openapi3_detected(content@),
    {
        contains_str(content, "openapi") && (contains_str(content, "\"3.") || contains_str(
            content,
            "'3.",
        ) || contains_str(content, "3."))
    }

    fn parse(&self, source: &SpecSource) -> (r: Result<ApiSpec, GuardError>)
        ensures
            parse_outcome(SpecFormat::OpenApi3, *source, r),
    {
        match source {
            SpecSource::OpenApi3(doc) => Ok(self.parse_document(doc)),
            SpecSource::Text(t) => self.parse_text(t.as_str()),
            _ => Err(GuardError::SourceMismatch(SpecFormat::OpenApi3)),
        }
    }
}

impl OpenApi3Parser {
    /// The API description of OpenAPI 3.x text: decoded as JSON when it
    /// starts with `{` (after whitespace), else as YAML; the decode error when
    /// it does not decode.
    pub fn parse_text(&self, content: &str) -> (r: Result<ApiSpec, GuardError>)
        ensures
            match openapi3_text_document(content@) {
                Some(doc) => r matches Ok(s) && s@ == openapi3_spec(doc),
                None => r matches Err(e) && e == openapi3_decode_error(content@),
            },
    {
        let json = trimmed_starts_with(content, '{');
        let decoded = if json {
            decode_openapi3_json(content)
        } else {
            decode_openapi3_yaml(content)
        };
        match decoded {
            Some(doc) => Ok(self.parse_document(&doc)),
            None => if json {
                Err(GuardError::MalformedJson(SpecFormat::OpenApi3))
            } else {
                Err(GuardError::MalformedYaml(SpecFormat::OpenApi3))
            },
        }
    }

    /// The API description of a decoded OpenAPI 3.x document.
    pub fn parse_document(&self, doc: &OpenApiDocument) -> (r: ApiSpec)
        ensures
            r@ == openapi3_spec(*doc),
            r@.endpoints.len() <= MAX_ENDPOINTS,
    {
        let base_url = if doc.server_urls.len() > 0 {
            Some(doc.server_urls[0].clone())
        } else {
            None
        };
        let auth_methods = extract_auth_methods(doc);
        let endpoints = extract_endpoints(doc);
        let schemas = extract_schemas(doc);
        ApiSpec {
            name: doc.title.clone(),
            version: Some(doc.version.clone()),
            description: or_empty_of(&doc.description),
            base_url,
            spec_format: SpecFormat::OpenApi3,
            auth_methods,
            endpoints,
            schemas,
        }
    }
}

} // verus!
