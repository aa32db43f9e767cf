//! gRPC `.proto` files: each `rpc` of a `service` becomes a POST endpoint and
//! each `message` a schema.
use crate::ir::{
    ApiSpec, ApiSpecView, AuthMethod, AuthMethodView, Endpoint, EndpointView, HttpMethod,
    Parameter, ParameterLocation, ParameterView, Response, ResponseView, Schema, SchemaProperty,
    SchemaPropertyView, SchemaView, SpecFormat,
};
use crate::parser::graphql::min;
use crate::pattern::{
    all_matches, group_is_present, group_present, group_string, group_text, group_trimmed,
    group_trimmed_string, matches_of, Groups,
};
use crate::security::{MAX_ENDPOINTS, MAX_SCHEMA_PROPERTIES};
use crate::text::{contains_str, contains_text, owned, put, str_eq, strings_view};
use crate::error::GuardError;
use crate::parser::{parse_outcome, ApiParser, SpecSource};
use vstd::prelude::*;
use vstd::string::*;

verus! {

/// `package a.b.c;`
pub const RE_PACKAGE: &'static str = r"package\s+([\w.]+)\s*;";

/// A service block: name and body.
pub const RE_SERVICE: &'static str = r"service\s+(\w+)\s*\{([^}]*)\}";

/// An rpc with an optional `//` comment line before it: comment, name,
/// client `stream`, input type, server `stream`, output type.
pub const RE_RPC: &'static str = r"(?://\s*(.+)\n\s*)?rpc\s+(\w+)\s*\(\s*(stream\s+)?(\w+)\s*\)\s*returns\s*\(\s*(stream\s+)?(\w+)\s*\)";

/// A message block with an optional `//` comment line before it: comment,
/// name, body.
pub const RE_MESSAGE: &'static str = r"(?://\s*(.+)\n\s*)?message\s+(\w+)\s*\{([^}]*)\}";

/// A message field with an optional `//` comment line before it: comment,
/// label, type, name.
pub const RE_FIELD: &'static str = r"(?://\s*(.+)\n\s*)?(repeated\s+|optional\s+|required\s+)?(\w+)\s+(\w+)\s*=\s*\d+\s*;";

/// The gRPC proto parser.
pub struct ProtoParser;

/// An rpc of a service.
pub struct RpcDef {
    pub name: String,
    pub input_type: String,
    pub output_type: String,
    pub client_streaming: bool,
    pub server_streaming: bool,
    pub comment: String,
}

pub struct RpcDefView {
    pub name: Seq<char>,
    pub input_type: Seq<char>,
    pub output_type: Seq<char>,
    pub client_streaming: bool,
    pub server_streaming: bool,
    pub comment: Seq<char>,
}

impl View for RpcDef {
    type V = RpcDefView;

    open spec fn view(&self) -> RpcDefView {
        RpcDefView {
            name: self.name@,
            input_type: self.input_type@,
            output_type: self.output_type@,
            client_streaming: self.client_streaming,
            server_streaming: self.server_streaming,
            comment: self.comment@,
        }
    }
}

pub open spec fn rpcs_view(v: Seq<RpcDef>) -> Seq<RpcDefView> {
    v.map_values(|r: RpcDef| r@)
}

/// A service with its rpcs.
pub struct ServiceDef {
    pub name: String,
    pub rpcs: Vec<RpcDef>,
}

pub struct ServiceDefView {
    pub name: Seq<char>,
    pub rpcs: Seq<RpcDefView>,
}

impl View for ServiceDef {
    type V = ServiceDefView;

    open spec fn view(&self) -> ServiceDefView {
        ServiceDefView { name: self.name@, rpcs: rpcs_view(self.rpcs@) }
    }
}

pub open spec fn services_view(v: Seq<ServiceDef>) -> Seq<ServiceDefView> {
    v.map_values(|s: ServiceDef| s@)
}

/// A field of a message.
pub struct FieldDef {
    pub name: String,
    pub field_type: String,
    pub comment: String,
}

pub struct FieldDefView {
    pub name: Seq<char>,
    pub field_type: Seq<char>,
    pub comment: Seq<char>,
}

impl View for FieldDef {
    type V = FieldDefView;

    open spec fn view(&self) -> FieldDefView {
        FieldDefView { name: self.name@, field_type: self.field_type@, comment: self.comment@ }
    }
}

pub open spec fn fields_view(v: Seq<FieldDef>) -> Seq<FieldDefView> {
    v.map_values(|f: FieldDef| f@)
}

/// A message with its fields.
pub struct MessageDef {
    pub name: String,
    pub comment: String,
    pub fields: Vec<FieldDef>,
}

pub struct MessageDefView {
    pub name: Seq<char>,
    pub comment: Seq<char>,
    pub fields: Seq<FieldDefView>,
}

impl View for MessageDef {
    type V = MessageDefView;

    open spec fn view(&self) -> MessageDefView {
        MessageDefView { name: self.name@, comment: self.comment@, fields: fields_view(self.fields@) }
    }
}

pub open spec fn messages_view(v: Seq<MessageDef>) -> Seq<MessageDefView> {
    v.map_values(|m: MessageDef| m@)
}

// ---------------------------------------------------------------------------
// Package
// ---------------------------------------------------------------------------
/// The package name that the first package match gives, if any.
pub open spec fn package_from(ms: Seq<Groups>) -> Option<Seq<char>> {
    if ms.len() > 0 {
        Some(group_text(ms[0], 1))
    } else {
        None
    }
}

pub open spec fn package_of(content: Seq<char>) -> Option<Seq<char>> {
    package_from(all_matches(RE_PACKAGE@, content))
}

/// The package name among the given package matches.
pub fn package_from_matches(ms: &Vec<Vec<Option<String>>>) -> (r: Option<String>)
    ensures
        crate::ir::opt_view(r) == package_from(ms.deep_view()),
{
    if ms.len() > 0 {
        Some(group_string(&ms[0], 1))
    } else {
        None
    }
}

/// The name in the file's `package` statement.
pub fn extract_package(content: &str) -> (r: Option<String>)
    ensures
        crate::ir::opt_view(r) == package_of(content@),
{
    let ms = matches_of(RE_PACKAGE, content);
    package_from_matches(&ms)
}

// ---------------------------------------------------------------------------
// Services
// ---------------------------------------------------------------------------
pub open spec fn rpc_from(c: Groups) -> RpcDefView {
    RpcDefView {
        name: group_text(c, 2),
        input_type: group_text(c, 4),
        output_type: group_text(c, 6),
        client_streaming: group_present(c, 3),
        server_streaming: group_present(c, 5),
        comment: group_trimmed(c, 1),
    }
}

pub open spec fn service_from(c: Groups) -> ServiceDefView {
    ServiceDefView {
        name: group_text(c, 1),
        rpcs: all_matches(RE_RPC@, group_text(c, 2)).map_values(|r: Groups| rpc_from(r)),
    }
}

pub open spec fn parsed_services(content: Seq<char>) -> Seq<ServiceDefView> {
    all_matches(RE_SERVICE@, content).map_values(|c: Groups| service_from(c))
}

/// The rpcs that the given rpc matches describe.
pub fn rpcs_from_matches(ms: &Vec<Vec<Option<String>>>) -> (r: Vec<RpcDef>)
    ensures
        rpcs_view(r@) == ms.deep_view().map_values(|c: Groups| rpc_from(c)),
{
    let mut r: Vec<RpcDef> = Vec::new();
    let mut i: usize = 0;
    while i < ms.len()
        invariant
            i <= ms@.len(),
            r@.len() == i,
            forall|k: int| 0 <= k < i ==> #[trigger] r@[k]@ == rpc_from(ms@[k].deep_view()),
        decreases ms@.len() - i,
    {
        let c = &ms[i];
        r.push(
            RpcDef {
                name: group_string(c, 2),
                input_type: group_string(c, 4),
                output_type: group_string(c, 6),
                client_streaming: group_is_present(c, 3),
                server_streaming: group_is_present(c, 5),
                comment: group_trimmed_string(c, 1),
            },
        );
        i = i + 1;
    }
    assert(rpcs_view(r@) =~= ms.deep_view().map_values(|c: Groups| rpc_from(c)));
    r
}

/// The services that the given service matches describe.
pub fn services_from_matches(ms: &Vec<Vec<Option<String>>>) -> (r: Vec<ServiceDef>)
    ensures
        services_view(r@) == ms.deep_view().map_values(|c: Groups| service_from(c)),
{
    let mut r: Vec<ServiceDef> = Vec::new();
    let mut i: usize = 0;
    while i < ms.len()
        invariant
            i <= ms@.len(),
            r@.len() == i,
            forall|k: int| 0 <= k < i ==> #[trigger] r@[k]@ == service_from(ms@[k].deep_view()),
        decreases ms@.len() - i,
    {
        let c = &ms[i];
        let body = group_string(c, 2);
        let rpc_matches = matches_of(RE_RPC, body.as_str());
        let rpcs = rpcs_from_matches(&rpc_matches);
        r.push(ServiceDef { name: group_string(c, 1), rpcs });
        i = i + 1;
    }
    assert(services_view(r@) =~= ms.deep_view().map_values(|c: Groups| service_from(c)));
    r
}

/// The services of the file, with their rpcs.
pub fn parse_services(content: &str) -> (r: Vec<ServiceDef>)
    ensures
        services_view(r@) == parsed_services(content@),
{
    let ms = matches_of(RE_SERVICE, content);
    services_from_matches(&ms)
}

// ---------------------------------------------------------------------------
// Messages
// ---------------------------------------------------------------------------
/// A message field; a `repeated` field's type is written `[T]`.
pub open spec fn field_from(c: Groups) -> FieldDefView {
    let base = group_text(c, 3);
    FieldDefView {
        name: group_text(c, 4),
        field_type: if group_trimmed(c, 2) == "repeated"@ {
            "["@ + base + "]"@
        } else {
            base
        },
        comment: group_trimmed(c, 1),
    }
}

/// A field's type is the list `[T]` of its type `T` exactly when the field
/// is labelled `repeated`; labelled `optional` or `required`, or unlabelled,
/// it is `T` itself.
pub proof fn lemma_field_type_lists_only_repeated(c: Groups)
    ensures
        group_trimmed(c, 2) == "repeated"@ ==> field_from(c).field_type == "["@ + group_text(c, 3)
            + "]"@,
        group_trimmed(c, 2) != "repeated"@ ==> field_from(c).field_type == group_text(c, 3),
        field_from(c).name == group_text(c, 4),
{
}

pub open spec fn message_from(c: Groups) -> MessageDefView {
    MessageDefView {
        name: group_text(c, 2),
        comment: group_trimmed(c, 1),
        fields: all_matches(RE_FIELD@, group_text(c, 3)).map_values(|f: Groups| field_from(f)),
    }
}

pub open spec fn parsed_messages(content: Seq<char>) -> Seq<MessageDefView> {
    all_matches(RE_MESSAGE@, content).map_values(|c: Groups| message_from(c))
}

/// The fields that the given field matches describe.
pub fn fields_from_matches(ms: &Vec<Vec<Option<String>>>) -> (r: Vec<FieldDef>)
    ensures
        fields_view(r@) == ms.deep_view().map_values(|c: Groups| field_from(c)),
{
    let mut r: Vec<FieldDef> = Vec::new();
    let mut i: usize = 0;
    while i < ms.len()
        invariant
            i <= ms@.len(),
            r@.len() == i,
            forall|k: int| 0 <= k < i ==> #[trigger] r@[k]@ == field_from(ms@[k].deep_view()),
        decreases ms@.len() - i,
    {
        let c = &ms[i];
        let modifier = group_trimmed_string(c, 2);
        let base_type = group_string(c, 3);
        let field_type = if str_eq(modifier.as_str(), "repeated") {
            let mut t = owned("[");
            put(&mut t, base_type.as_str());
            put(&mut t, "]");
            t
        } else {
            base_type
        };
        r.push(
            FieldDef { name: group_string(c, 4), field_type, comment: group_trimmed_string(c, 1) },
        );
        i = i + 1;
    }
    assert(fields_view(r@) =~= ms.deep_view().map_values(|c: Groups| field_from(c)));
    r
}

/// The messages that the given message matches describe.
pub fn messages_from_matches(ms: &Vec<Vec<Option<String>>>) -> (r: Vec<MessageDef>)
    ensures
        messages_view(r@) == ms.deep_view().map_values(|c: Groups| message_from(c)),
{
    let mut r: Vec<MessageDef> = Vec::new();
    let mut i: usize = 0;
    while i < ms.len()
        invariant
            i <= ms@.len(),
            r@.len() == i,
            forall|k: int| 0 <= k < i ==> #[trigger] r@[k]@ == message_from(ms@[k].deep_view()),
        decreases ms@.len() - i,
    {
        let c = &ms[i];
        let body = group_string(c, 3);
        let field_matches = matches_of(RE_FIELD, body.as_str());
        let fields = fields_from_matches(&field_matches);
        r.push(MessageDef { name: group_string(c, 2), comment: group_trimmed_string(c, 1), fields });
        i = i + 1;
    }
    assert(messages_view(r@) =~= ms.deep_view().map_values(|c: Groups| message_from(c)));
    r
}

/// The messages of the file, with their fields.
pub fn parse_messages(content: &str) -> (r: Vec<MessageDef>)
    ensures
        messages_view(r@) == parsed_messages(content@),
{
    let ms = matches_of(RE_MESSAGE, content);
    messages_from_matches(&ms)
}

// ---------------------------------------------------------------------------
// The API description
// ---------------------------------------------------------------------------
pub open spec fn streaming_note(client: bool, server: bool) -> Seq<char> {
    if client && server {
        " (bidirectional streaming)"@
    } else if client {
        " (client streaming)"@
    } else if server {
        " (server streaming)"@
    } else {
        Seq::empty()
    }
}

/// The streaming note names both directions, only the client, only the
/// server, or nothing, as the rpc streams.
pub proof fn lemma_streaming_note(client: bool, server: bool)
    ensures
        (streaming_note(client, server) == " (bidirectional streaming)"@) <== (client && server),
        (streaming_note(client, server) == " (client streaming)"@) <== (client && !server),
        (streaming_note(client, server) == " (server streaming)"@) <== (!client && server),
        (streaming_note(client, server).len() == 0) <== (!client && !server),
{
}

pub open spec fn package_or_empty(package: Option<Seq<char>>) -> Seq<char> {
    match package {
        Some(p) => p,
        None => Seq::empty(),
    }
}

/// The endpoint of an rpc: `POST /package.Service/Rpc`, its request message
/// as the one parameter.
pub open spec fn rpc_endpoint(s: ServiceDefView, r: RpcDefView, package: Option<Seq<char>>) -> EndpointView {
    EndpointView {
        path: "/"@ + package_or_empty(package) + "."@ + s.name + "/"@ + r.name,
        method: HttpMethod::Post,
        summary: r.name + streaming_note(r.client_streaming, r.server_streaming),
        description: r.comment,
        parameters: seq![
            ParameterView {
                name: r.input_type,
                location: ParameterLocation::Query,
                description: "Request message: "@ + r.input_type,
                required: true,
                schema_type: r.input_type,
            },
        ],
        request_body: None,
        responses: seq![
            ResponseView {
                status_code: "OK"@,
                description: "Returns "@ + r.output_type,
                schema: None,
            },
        ],
        tags: seq![s.name],
    }
}

/// The endpoints of all rpcs of the services, in order.
pub open spec fn all_rpc_endpoints(ss: Seq<ServiceDefView>, package: Option<Seq<char>>) -> Seq<
    EndpointView,
>
    decreases ss.len(),
{
    if ss.len() == 0 {
        Seq::empty()
    } else {
        all_rpc_endpoints(ss.drop_last(), package) + ss.last().rpcs.map_values(
            |r: RpcDefView| rpc_endpoint(ss.last(), r, package),
        )
    }
}

pub open spec fn proto_endpoints(content: Seq<char>) -> Seq<EndpointView> {
    let all = all_rpc_endpoints(parsed_services(content), package_of(content));
    all.take(min(all.len() as int, MAX_ENDPOINTS as int))
}

/// A message as a schema; every field is required.
pub open spec fn message_schema(m: MessageDefView) -> SchemaView {
    SchemaView {
        type_label: m.name,
        format: None,
        properties: m.fields.take(min(m.fields.len() as int, MAX_SCHEMA_PROPERTIES as int)).map_values(
            |f: FieldDefView|
                SchemaPropertyView {
                    name: f.name,
                    type_label: f.field_type,
                    description: f.comment,
                    required: true,
                },
        ),
        required_fields: m.fields.map_values(|f: FieldDefView| f.name),
        enum_values: Seq::empty(),
        description: m.comment,
    }
}

/// The API name: the last service's name, else `gRPC API`.
pub open spec fn proto_api_name(services: Seq<ServiceDefView>) -> Seq<char> {
    if services.len() > 0 {
        services.last().name
    } else {
        "gRPC API"@
    }
}

/// The API description of a proto file.
pub open spec fn proto_spec(content: Seq<char>) -> ApiSpecView {
    ApiSpecView {
        name: proto_api_name(parsed_services(content)),
        version: None,
        description: "gRPC service (package: "@ + match package_of(content) {
            Some(p) => p,
            None => "unknown"@,
        } + ")"@,
        base_url: None,
        spec_format: SpecFormat::GrpcProto,
        auth_methods: seq![AuthMethodView::NoAuth],
        endpoints: proto_endpoints(content),
        schemas: parsed_messages(content).map_values(|m: MessageDefView| message_schema(m)),
    }
}

/// Whether the content looks like a proto file with a service.
pub open spec fn proto_detected(content: Seq<char>) -> bool {
    contains_text(content, "syntax"@) && contains_text(content, "proto"@) && contains_text(
        content,
        "service"@,
    )
}

fn rpc_endpoint_of(s: &ServiceDef, r: &RpcDef, package: &Option<String>) -> (e: Endpoint)
    ensures
        e@ == rpc_endpoint(s@, r@, crate::ir::opt_view(*package)),
{
    let mut path = owned("/");
    match package {
        Some(p) => put(&mut path, p.as_str()),
        None => {},
    }
    put(&mut path, ".");
    put(&mut path, s.name.as_str());
    put(&mut path, "/");
    put(&mut path, r.name.as_str());
    let mut description = owned("Request message: ");
    put(&mut description, r.input_type.as_str());
    let parameters = vec![
        Parameter {
            name: r.input_type.clone(),
            location: ParameterLocation::Query,
            description,
            required: true,
            schema_type: r.input_type.clone(),
        },
    ];
    let mut summary = r.name.clone();
    if r.client_streaming && r.server_streaming {
        put(&mut summary, " (bidirectional streaming)");
    } else if r.client_streaming {
        put(&mut summary, " (client streaming)");
    } else if r.server_streaming {
        put(&mut summary, " (server streaming)");
    }
    let mut output_note = owned("Returns ");
    put(&mut output_note, r.output_type.as_str());
    let responses = vec![Response { status_code: owned("OK"), description: output_note, schema: None }];
    let tags = vec![s.name.clone()];
    let e = Endpoint {
        path,
        method: HttpMethod::Post,
        summary,
        description: r.comment.clone(),
        parameters,
        request_body: None,
        responses,
        tags,
    };
    proof {
        let pv = crate::ir::opt_view(*package);
        if package.is_none() {
            assert(e.path@ =~= "/"@ + package_or_empty(pv) + "."@ + s.name@ + "/"@ + r.name@);
        }
        assert(e.summary@ =~= r.name@ + streaming_note(r.client_streaming, r.server_streaming));
        assert(crate::ir::parameters_view(e.parameters@) =~= rpc_endpoint(s@, r@, pv).parameters);
        assert(crate::ir::responses_view(e.responses@) =~= rpc_endpoint(s@, r@, pv).responses);
        assert(strings_view(e.tags@) =~= seq![s.name@]);
    }
    e
}

fn message_schema_of(m: &MessageDef) -> (s: Schema)
    ensures
        s@ == message_schema(m@),
{
    let mut properties: Vec<SchemaProperty> = Vec::new();
    let mut required_fields: Vec<String> = Vec::new();
    let mut i: usize = 0;
    while i < m.fields.len()
        invariant
            i <= m.fields@.len(),
            properties@.len() == min(i as int, MAX_SCHEMA_PROPERTIES as int),
            required_fields@.len() == i,
            forall|k: int|
                0 <= k < properties@.len() ==> #[trigger] properties@[k]@ == (SchemaPropertyView {
                    name: m.fields@[k]@.name,
                    type_label: m.fields@[k]@.field_type,
                    description: m.fields@[k]@.comment,
                    required: true,
                }),
            forall|k: int| 0 <= k < i ==> #[trigger] required_fields@[k]@ == m.fields@[k]@.name,
        decreases m.fields@.len() - i,
    {
        let f = &m.fields[i];
        if i < MAX_SCHEMA_PROPERTIES {
            properties.push(
                SchemaProperty {
                    name: f.name.clone(),
                    type_label: f.field_type.clone(),
                    description: f.comment.clone(),
                    required: true,
                },
            );
        }
        required_fields.push(f.name.clone());
        i = i + 1;
    }
    let s = Schema {
        type_label: m.name.clone(),
        format: None,
        properties,
        required_fields,
        enum_values: Vec::new(),
        description: m.comment.clone(),
    };
    assert(crate::ir::properties_view(s.properties@) =~= message_schema(m@).properties);
    assert(strings_view(s.required_fields@) =~= message_schema(m@).required_fields);
    assert(strings_view(s.enum_values@) =~= Seq::<Seq<char>>::empty());
    s
}

proof fn lemma_take_push_capped(all: Seq<EndpointView>, e: EndpointView)
    ensures
        all.push(e).take(min(all.len() + 1 as int, MAX_ENDPOINTS as int)) == if all.len()
            < MAX_ENDPOINTS {
            all.take(min(all.len() as int, MAX_ENDPOINTS as int)).push(e)
        } else {
            all.take(min(all.len() as int, MAX_ENDPOINTS as int))
        },
{
    if all.len() < MAX_ENDPOINTS {
        assert(all.push(e).take((all.len() + 1) as int) =~= all.take(all.len() as int).push(e));
    } else {
        assert(all.push(e).take(MAX_ENDPOINTS as int) =~= all.take(MAX_ENDPOINTS as int));
    }
}

impl ApiParser for ProtoParser {
    fn name(&self) -> (r: &'static str)
        ensures
            r@ == "gRPC Proto"@,
    {
        "gRPC Proto"
    }

    fn format(&self) -> (r: SpecFormat)
        ensures
            r == SpecFormat::GrpcProto,
    {
        SpecFormat::GrpcProto
    }

    /// Returns true if the content appears to be a proto file with a service.
    fn detect(&self, content: &str) -> (r: bool)
        ensures
            r == proto_detected(content@),
    {
        contains_str(content, "syntax") && contains_str(content, "proto") && contains_str(
            content,
            "service",
        )
    }

    fn parse(&self, source: &SpecSource) -> (r: Result<ApiSpec, GuardError>)
        ensures
            parse_outcome(SpecFormat::GrpcProto, *source, r),
    {
        match source {
            SpecSource::Text(t) => Ok(self.parse_text(t.as_str())),
            _ => Err(GuardError::SourceMismatch(SpecFormat::GrpcProto)),
        }
    }
}

impl ProtoParser {
    /// Parse a proto file into an `ApiSpec`.
    pub fn parse_text(&self, content: &str) -> (r: ApiSpec)
        ensures
            r@ == proto_spec(content@),
            r@.endpoints.len() <= MAX_ENDPOINTS,
    {
        let package = extract_package(content);
        let services = parse_services(content);
        let messages = parse_messages(content);
        let ghost pv = crate::ir::opt_view(package);
        let ghost sv = services_view(services@);

        let mut endpoints: Vec<Endpoint> = Vec::new();
        let mut api_name = owned("gRPC API");
        let ghost mut all: Seq<EndpointView> = Seq::empty();
        let mut i: usize = 0;
        while i < services.len()
            invariant
                i <= services@.len(),
                sv == services_view(services@),
                pv == crate::ir::opt_view(package),
                all == all_rpc_endpoints(sv.take(i as int), pv),
                crate::ir::endpoints_view(endpoints@) == all.take(
                    min(all.len() as int, MAX_ENDPOINTS as int),
                ),
                api_name@ == proto_api_name(sv.take(i as int)),
            decreases services@.len() - i,
        {
            let service = &services[i];
            api_name = service.name.clone();
            let ghost before = all;
            let mut k: usize = 0;
            while k < service.rpcs.len()
                invariant
                    k <= service.rpcs@.len(),
                    pv == crate::ir::opt_view(package),
                    all == before + service@.rpcs.take(k as int).map_values(
                        |r: RpcDefView| rpc_endpoint(service@, r, pv),
                    ),
                    crate::ir::endpoints_view(endpoints@) == all.take(
                        min(all.len() as int, MAX_ENDPOINTS as int),
                    ),
                decreases service.rpcs@.len() - k,
            {
                let e = rpc_endpoint_of(service, &service.rpcs[k], &package);
                proof {
                    lemma_take_push_capped(all, e@);
                    assert(service@.rpcs.take(k + 1).map_values(
                        |r: RpcDefView| rpc_endpoint(service@, r, pv),
                    ) =~= service@.rpcs.take(k as int).map_values(
                        |r: RpcDefView| rpc_endpoint(service@, r, pv),
                    ).push(e@));
                }
                let ghost ev_before = crate::ir::endpoints_view(endpoints@);
                let ghost ev_item = e@;
                if endpoints.len() < MAX_ENDPOINTS {
                    endpoints.push(e);
                    assert(crate::ir::endpoints_view(endpoints@) =~= ev_before.push(ev_item));
                }
                proof {
                    all = all.push(ev_item);
                }
                k = k + 1;
            }
            proof {
                assert(service@.rpcs.take(service@.rpcs.len() as int) =~= service@.rpcs);
                assert(sv.take(i + 1).drop_last() =~= sv.take(i as int));
                assert(sv[i as int] == service@);
            }
            i = i + 1;
        }
        assert(sv.take(sv.len() as int) =~= sv);
        let mut schemas: Vec<Schema> = Vec::new();
        let mut t: usize = 0;
        while t < messages.len()
            invariant
                t <= messages@.len(),
                schemas@.len() == t,
                forall|k: int| 0 <= k < t ==> #[trigger] schemas@[k]@ == message_schema(messages@[k]@),
            decreases messages@.len() - t,
        {
            let s = message_schema_of(&messages[t]);
            schemas.push(s);
            t = t + 1;
        }
        let mut description = owned("gRPC service (package: ");
        match &package {
            Some(p) => put(&mut description, p.as_str()),
            None => put(&mut description, "unknown"),
        }
        put(&mut description, ")");
        let spec = ApiSpec {
            name: api_name,
            version: None,
            description,
            base_url: None,
            spec_format: SpecFormat::GrpcProto,
            auth_methods: vec![AuthMethod::NoAuth],
            endpoints,
            schemas,
        };
        assert(crate::ir::schemas_view(spec.schemas@) =~= parsed_messages(content@).map_values(
            |m: MessageDefView| message_schema(m),
        ));
        assert(crate::ir::auths_view(spec.auth_methods@) =~= seq![AuthMethodView::NoAuth]);
        spec
    }
}

} // verus!
