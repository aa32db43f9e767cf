//! The intermediate representation every parser produces and the guide
//! generator reads, with a mathematical view of each type.
use crate::text::{join_text, owned, put, put_joined, string_from_chars, strings_view};
use vstd::prelude::*;
use vstd::string::*;

verus! {

/// HTTP method for an endpoint.
#[derive(Clone, Copy, Debug, PartialEq, Eq, Structural)]
pub enum HttpMethod {
    Get,
    Post,
    Put,
    Patch,
    Delete,
    Head,
    Options,
}

impl HttpMethod {
    /// The method's name as the guide prints it.
    pub open spec fn text(self) -> Seq<char> {
        match self {
            HttpMethod::Get => seq!['G', 'E', 'T'],
            HttpMethod::Post => seq!['P', 'O', 'S', 'T'],
            HttpMethod::Put => seq!['P', 'U', 'T'],
            HttpMethod::Patch => seq!['P', 'A', 'T', 'C', 'H'],
            HttpMethod::Delete => seq!['D', 'E', 'L', 'E', 'T', 'E'],
            HttpMethod::Head => seq!['H', 'E', 'A', 'D'],
            HttpMethod::Options => seq!['O', 'P', 'T', 'I', 'O', 'N', 'S'],
        }
    }

    /// The method's name (`GET`, `POST`, ...).
    pub fn to_string(&self) -> (r: String)
        ensures
            r@ == self.text(),
    {
        let chars: &[char] = match self {
            HttpMethod::Get => &['G', 'E', 'T'],
            HttpMethod::Post => &['P', 'O', 'S', 'T'],
            HttpMethod::Put => &['P', 'U', 'T'],
            HttpMethod::Patch => &['P', 'A', 'T', 'C', 'H'],
            HttpMethod::Delete => &['D', 'E', 'L', 'E', 'T', 'E'],
            HttpMethod::Head => &['H', 'E', 'A', 'D'],
            HttpMethod::Options => &['O', 'P', 'T', 'I', 'O', 'N', 'S'],
        };
        let r = string_from_chars(chars);
        assert(r@ =~= self.text());
        r
    }
}

/// Where a parameter is located in the request.
#[derive(Clone, Copy, Debug, PartialEq, Eq, Structural)]
pub enum ParameterLocation {
    Path,
    Query,
    Header,
    Cookie,
}

impl ParameterLocation {
    pub open spec fn text(self) -> Seq<char> {
        match self {
            ParameterLocation::Path => "path"@,
            ParameterLocation::Query => "query"@,
            ParameterLocation::Header => "header"@,
            ParameterLocation::Cookie => "cookie"@,
        }
    }

    /// The location's name (`path`, `query`, `header`, `cookie`).
    pub fn to_string(&self) -> (r: String)
        ensures
            r@ == self.text(),
    {
        match self {
            ParameterLocation::Path => owned("path"),
            ParameterLocation::Query => owned("query"),
            ParameterLocation::Header => owned("header"),
            ParameterLocation::Cookie => owned("cookie"),
        }
    }
}

/// Authentication method used by the API.
#[derive(Debug)]
pub enum AuthMethod {
    ApiKey { location: String, name: String },
    Bearer,
    OAuth2 { flows: Vec<String> },
    Basic,
    NoAuth,
}

/// The view of an [`AuthMethod`].
pub enum AuthMethodView {
    ApiKey { location: Seq<char>, name: Seq<char> },
    Bearer,
    OAuth2 { flows: Seq<Seq<char>> },
    Basic,
    NoAuth,
}

impl View for AuthMethod {
    type V = AuthMethodView;

    open spec fn view(&self) -> AuthMethodView {
        match self {
            AuthMethod::ApiKey { location, name } => AuthMethodView::ApiKey {
                location: location@,
                name: name@,
            },
            AuthMethod::Bearer => AuthMethodView::Bearer,
            AuthMethod::OAuth2 { flows } => AuthMethodView::OAuth2 { flows: strings_view(flows@) },
            AuthMethod::Basic => AuthMethodView::Basic,
            AuthMethod::NoAuth => AuthMethodView::NoAuth,
        }
    }
}

impl AuthMethodView {
    pub open spec fn text(self) -> Seq<char> {
        match self {
            AuthMethodView::ApiKey { location, name } => "API Key ("@ + location + ": "@ + name
                + ")"@,
            AuthMethodView::Bearer => "Bearer Token"@,
            AuthMethodView::OAuth2 { flows } => "OAuth2 ("@ + join_text(flows, ", "@) + ")"@,
            AuthMethodView::Basic => "Basic Auth"@,
            AuthMethodView::NoAuth => "None"@,
        }
    }
}

impl AuthMethod {
    /// A one-line description of the method, e.g. `API Key (header: X-Key)`.
    pub fn to_string(&self) -> (r: String)
        ensures
            r@ == self@.text(),
    {
        match self {
            AuthMethod::ApiKey { location, name } => {
                let mut r = owned("API Key (");
                put(&mut r, location.as_str());
                put(&mut r, ": ");
                put(&mut r, name.as_str());
                put(&mut r, ")");
                r
            },
            AuthMethod::Bearer => owned("Bearer Token"),
            AuthMethod::OAuth2 { flows } => {
                let mut r = owned("OAuth2 (");
                put_joined(&mut r, flows, ", ");
                put(&mut r, ")");
                r
            },
            AuthMethod::Basic => owned("Basic Auth"),
            AuthMethod::NoAuth => owned("None"),
        }
    }
}

/// Which spec format was parsed.
#[derive(Clone, Copy, Debug, PartialEq, Eq, Structural)]
pub enum SpecFormat {
    OpenApi3,
    Swagger2,
    GraphQl,
    GrpcProto,
}

impl SpecFormat {
    pub open spec fn text(self) -> Seq<char> {
        match self {
            SpecFormat::OpenApi3 => "OpenAPI 3.x"@,
            SpecFormat::Swagger2 => "Swagger 2.0"@,
            SpecFormat::GraphQl => "GraphQL"@,
            SpecFormat::GrpcProto => "gRPC/Protobuf"@,
        }
    }

    /// The format's display name.
    pub fn to_string(&self) -> (r: String)
        ensures
            r@ == self.text(),
    {
        match self {
            SpecFormat::OpenApi3 => owned("OpenAPI 3.x"),
            SpecFormat::Swagger2 => owned("Swagger 2.0"),
            SpecFormat::GraphQl => owned("GraphQL"),
            SpecFormat::GrpcProto => owned("gRPC/Protobuf"),
        }
    }
}

/// Views of optional strings.
pub open spec fn opt_view(o: Option<String>) -> Option<Seq<char>> {
    match o {
        Some(s) => Some(s@),
        None => None,
    }
}

/// A single property within a schema.
#[derive(Debug)]
pub struct SchemaProperty {
    pub name: String,
    pub type_label: String,
    pub description: String,
    pub required: bool,
}

pub struct SchemaPropertyView {
    pub name: Seq<char>,
    pub type_label: Seq<char>,
    pub description: Seq<char>,
    pub required: bool,
}

impl View for SchemaProperty {
    type V = SchemaPropertyView;

    open spec fn view(&self) -> SchemaPropertyView {
        SchemaPropertyView {
            name: self.name@,
            type_label: self.type_label@,
            description: self.description@,
            required: self.required,
        }
    }
}

/// A data model schema.
#[derive(Debug)]
pub struct Schema {
    pub type_label: String,
    pub format: Option<String>,
    pub properties: Vec<SchemaProperty>,
    pub required_fields: Vec<String>,
    pub enum_values: Vec<String>,
    pub description: String,
}

pub struct SchemaView {
    pub type_label: Seq<char>,
    pub format: Option<Seq<char>>,
    pub properties: Seq<SchemaPropertyView>,
    pub required_fields: Seq<Seq<char>>,
    pub enum_values: Seq<Seq<char>>,
    pub description: Seq<char>,
}

pub open spec fn properties_view(v: Seq<SchemaProperty>) -> Seq<SchemaPropertyView> {
    v.map_values(|p: SchemaProperty| p@)
}

impl View for Schema {
    type V = SchemaView;

    open spec fn view(&self) -> SchemaView {
        SchemaView {
            type_label: self.type_label@,
            format: opt_view(self.format),
            properties: properties_view(self.properties@),
            required_fields: strings_view(self.required_fields@),
            enum_values: strings_view(self.enum_values@),
            description: self.description@,
        }
    }
}

pub open spec fn opt_schema_view(o: Option<Schema>) -> Option<SchemaView> {
    match o {
        Some(s) => Some(s@),
        None => None,
    }
}

pub open spec fn schemas_view(v: Seq<Schema>) -> Seq<SchemaView> {
    v.map_values(|s: Schema| s@)
}

/// A request parameter.
#[derive(Debug)]
pub struct Parameter {
    pub name: String,
    pub location: ParameterLocation,
    pub description: String,
    pub required: bool,
    pub schema_type: String,
}

pub struct ParameterView {
    pub name: Seq<char>,
    pub location: ParameterLocation,
    pub description: Seq<char>,
    pub required: bool,
    pub schema_type: Seq<char>,
}

impl View for Parameter {
    type V = ParameterView;

    open spec fn view(&self) -> ParameterView {
        ParameterView {
            name: self.name@,
            location: self.location,
            description: self.description@,
            required: self.required,
            schema_type: self.schema_type@,
        }
    }
}

pub open spec fn parameters_view(v: Seq<Parameter>) -> Seq<ParameterView> {
    v.map_values(|p: Parameter| p@)
}

/// A request body.
#[derive(Debug)]
pub struct RequestBody {
    pub content_type: String,
    pub schema: Option<Schema>,
    pub required: bool,
    pub description: String,
}

pub struct RequestBodyView {
    pub content_type: Seq<char>,
    pub schema: Option<SchemaView>,
    pub required: bool,
    pub description: Seq<char>,
}

impl View for RequestBody {
    type V = RequestBodyView;

    open spec fn view(&self) -> RequestBodyView {
        RequestBodyView {
            content_type: self.content_type@,
            schema: opt_schema_view(self.schema),
            required: self.required,
            description: self.description@,
        }
    }
}

pub open spec fn opt_body_view(o: Option<RequestBody>) -> Option<RequestBodyView> {
    match o {
        Some(b) => Some(b@),
        None => None,
    }
}

/// A response definition.
#[derive(Debug)]
pub struct Response {
    pub status_code: String,
    pub description: String,
    pub schema: Option<Schema>,
}

pub struct ResponseView {
    pub status_code: Seq<char>,
    pub description: Seq<char>,
    pub schema: Option<SchemaView>,
}

impl View for Response {
    type V = ResponseView;

    open spec fn view(&self) -> ResponseView {
        ResponseView {
            status_code: self.status_code@,
            description: self.description@,
            schema: opt_schema_view(self.schema),
        }
    }
}

pub open spec fn responses_view(v: Seq<Response>) -> Seq<ResponseView> {
    v.map_values(|r: Response| r@)
}

/// A single API endpoint.
#[derive(Debug)]
pub struct Endpoint {
    pub path: String,
    pub method: HttpMethod,
    pub summary: String,
    pub description: String,
    pub parameters: Vec<Parameter>,
    pub request_body: Option<RequestBody>,
    pub responses: Vec<Response>,
    pub tags: Vec<String>,
}

pub struct EndpointView {
    pub path: Seq<char>,
    pub method: HttpMethod,
    pub summary: Seq<char>,
    pub description: Seq<char>,
    pub parameters: Seq<ParameterView>,
    pub request_body: Option<RequestBodyView>,
    pub responses: Seq<ResponseView>,
    pub tags: Seq<Seq<char>>,
}

impl View for Endpoint {
    type V = EndpointView;

    open spec fn view(&self) -> EndpointView {
        EndpointView {
            path: self.path@,
            method: self.method,
            summary: self.summary@,
            description: self.description@,
            parameters: parameters_view(self.parameters@),
            request_body: opt_body_view(self.request_body),
            responses: responses_view(self.responses@),
            tags: strings_view(self.tags@),
        }
    }
}

pub open spec fn endpoints_view(v: Seq<Endpoint>) -> Seq<EndpointView> {
    v.map_values(|e: Endpoint| e@)
}

pub open spec fn auths_view(v: Seq<AuthMethod>) -> Seq<AuthMethodView> {
    v.map_values(|a: AuthMethod| a@)
}

/// The complete specification of an API, as parsed from a spec file.
#[derive(Debug)]
pub struct ApiSpec {
    pub name: String,
    pub version: Option<String>,
    pub description: String,
    pub base_url: Option<String>,
    pub spec_format: SpecFormat,
    pub auth_methods: Vec<AuthMethod>,
    pub endpoints: Vec<Endpoint>,
    pub schemas: Vec<Schema>,
}

pub struct ApiSpecView {
    pub name: Seq<char>,
    pub version: Option<Seq<char>>,
    pub description: Seq<char>,
    pub base_url: Option<Seq<char>>,
    pub spec_format: SpecFormat,
    pub auth_methods: Seq<AuthMethodView>,
    pub endpoints: Seq<EndpointView>,
    pub schemas: Seq<SchemaView>,
}

impl View for ApiSpec {
    type V = ApiSpecView;

    open spec fn view(&self) -> ApiSpecView {
        ApiSpecView {
            name: self.name@,
            version: opt_view(self.version),
            description: self.description@,
            base_url: opt_view(self.base_url),
            spec_format: self.spec_format,
            auth_methods: auths_view(self.auth_methods@),
            endpoints: endpoints_view(self.endpoints@),
            schemas: schemas_view(self.schemas@),
        }
    }
}

} // verus!
