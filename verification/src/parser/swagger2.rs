//! Swagger 2.0 documents, as decoded from JSON or YAML.
//!
//! Maps of the document are held as vectors of entries, in the order of the
//! decoded document (the decoder walks them in key order).
use crate::ir::{
    opt_view, ApiSpec, ApiSpecView, AuthMethod, AuthMethodView, Endpoint, EndpointView,
    HttpMethod, Parameter, ParameterLocation, ParameterView, Response, ResponseView, Schema,
    SchemaProperty, SchemaPropertyView, SchemaView, SpecFormat,
};
use crate::parser::graphql::min;
use crate::security::{MAX_ENDPOINTS, MAX_SCHEMA_PROPERTIES};
use crate::text::{ascii_lower, contains_str, contains_text, keys_sorted, owned, put, str_eq, strings_view};
use crate::error::GuardError;
use crate::parser::{parse_outcome, ApiParser, SpecSource};
use vstd::prelude::*;
use vstd::string::*;

verus! {

/// The Swagger 2.0 parser.
pub struct Swagger2Parser;

/// A Swagger 2.0 document: the parts the guide reads.
pub struct SwaggerSpec {
    pub info: SwaggerInfo,
    pub host: Option<String>,
    pub base_path: Option<String>,
    /// Each path with its operations keyed by method name.
    pub paths: Vec<(String, Vec<(String, SwaggerOperation)>)>,
    pub definitions: Vec<(String, SwaggerSchema)>,
    pub security_definitions: Vec<(String, SwaggerSecurityDef)>,
}

impl SwaggerSpec {
    /// The maps of the document are those of `BTreeMap`s, as a document
    /// decoded from JSON or YAML has them: keys unique and in increasing
    /// order, for the paths, each path's operations, the definitions and the
    /// security definitions.
    pub open spec fn well_formed(self) -> bool {
        &&& keys_sorted(self.paths@)
        &&& forall|i: int| 0 <= i < self.paths@.len() ==> keys_sorted((#[trigger] self.paths@[i]).1@)
        &&& keys_sorted(self.definitions@)
        &&& keys_sorted(self.security_definitions@)
    }
}

pub struct SwaggerInfo {
    pub title: String,
    pub version: String,
    pub description: Option<String>,
}

pub struct SwaggerOperation {
    pub summary: Option<String>,
    pub description: Option<String>,
    pub tags: Vec<String>,
    pub parameters: Vec<SwaggerParameter>,
    pub responses: Vec<(String, SwaggerResponse)>,
}

pub struct SwaggerParameter {
    pub name: String,
    pub location: String,
    pub description: Option<String>,
    pub required: bool,
    pub param_type: Option<String>,
}

pub struct SwaggerResponse {
    pub description: Option<String>,
}

pub struct SwaggerSchema {
    pub schema_type: Option<String>,
    pub description: Option<String>,
    pub required: Vec<String>,
    pub properties: Vec<(String, SwaggerSchemaProperty)>,
    pub enum_values: Vec<String>,
}

pub struct SwaggerSchemaProperty {
    pub prop_type: Option<String>,
    pub description: Option<String>,
}

pub struct SwaggerSecurityDef {
    pub sec_type: String,
    pub name: Option<String>,
    pub location: Option<String>,
    pub flow: Option<String>,
}

/// The text of an optional string, or nothing.
pub open spec fn or_empty(o: Option<String>) -> Seq<char> {
    match o {
        Some(s) => s@,
        None => Seq::empty(),
    }
}

/// The text of an optional string, or `string`.
pub open spec fn or_string(o: Option<String>) -> Seq<char> {
    match o {
        Some(s) => s@,
        None => "string"@,
    }
}

fn or_empty_of(o: &Option<String>) -> (r: String)
    ensures
        r@ == or_empty(*o),
{
    match o {
        Some(s) => s.clone(),
        None => String::new(),
    }
}

fn or_string_of(o: &Option<String>) -> (r: String)
    ensures
        r@ == or_string(*o),
{
    match o {
        Some(s) => s.clone(),
        None => owned("string"),
    }
}

fn clone_strings(v: &Vec<String>) -> (r: Vec<String>)
    ensures
        strings_view(r@) == strings_view(v@),
{
    let mut r: Vec<String> = Vec::new();
    let mut i: usize = 0;
    while i < v.len()
        invariant
            i <= v@.len(),
            r@.len() == i,
            forall|k: int| 0 <= k < i ==> #[trigger] r@[k]@ == v@[k]@,
        decreases v@.len() - i,
    {
        r.push(v[i].clone());
        i = i + 1;
    }
    assert(strings_view(r@) =~= strings_view(v@));
    r
}

// ---------------------------------------------------------------------------
// Base URL and authentication
// ---------------------------------------------------------------------------
/// `https://` with the host and base path, when there is a host.
pub open spec fn swagger_base_url(doc: SwaggerSpec) -> Option<Seq<char>> {
    match (doc.host, doc.base_path) {
        (Some(h), Some(b)) => Some("https://"@ + h@ + b@),
        (Some(h), None) => Some("https://"@ + h@),
        _ => None,
    }
}

/// The authentication method of a security definition, for the three kinds
/// the guide knows.
pub open spec fn security_auth(d: SwaggerSecurityDef) -> Option<AuthMethodView> {
    if d.sec_type@ == "apiKey"@ {
        Some(AuthMethodView::ApiKey { location: or_empty(d.location), name: or_empty(d.name) })
    } else if d.sec_type@ == "basic"@ {
        Some(AuthMethodView::Basic)
    } else if d.sec_type@ == "oauth2"@ {
        Some(
            AuthMethodView::OAuth2 {
                flows: match d.flow {
                    Some(f) => seq![f@],
                    None => Seq::empty(),
                },
            },
        )
    } else {
        None
    }
}

/// An `apiKey` definition gives an API-key method with the definition's own
/// `in` and `name`; `basic` gives basic authentication.
pub proof fn lemma_security_auth_kept(d: SwaggerSecurityDef)
    ensures
        d.sec_type@ == "apiKey"@ ==> security_auth(d) == Some(
            AuthMethodView::ApiKey { location: or_empty(d.location), name: or_empty(d.name) },
        ),
        d.sec_type@ == "basic"@ ==> security_auth(d) == Some(AuthMethodView::Basic),
{
    reveal_strlit("apiKey");
    reveal_strlit("basic");
    assert("apiKey"@ != "basic"@) by {
        assert("apiKey"@.len() != "basic"@.len());
    }
}

pub open spec fn security_auths(defs: Seq<(String, SwaggerSecurityDef)>) -> Seq<AuthMethodView>
    decreases defs.len(),
{
    if defs.len() == 0 {
        Seq::empty()
    } else {
        let prev = security_auths(defs.drop_last());
        match security_auth(defs.last().1) {
            Some(a) => prev.push(a),
            None => prev,
        }
    }
}

/// The authentication methods of the document; `None` alone when it has none.
pub open spec fn swagger_auths(doc: SwaggerSpec) -> Seq<AuthMethodView> {
    let found = security_auths(doc.security_definitions@);
    if found.len() == 0 {
        seq![AuthMethodView::NoAuth]
    } else {
        found
    }
}

fn security_auth_of(d: &SwaggerSecurityDef) -> (r: Option<AuthMethod>)
    ensures
        match r {
            Some(a) => security_auth(*d) == Some(a@),
            None => security_auth(*d) is None,
        },
{
    if str_eq(d.sec_type.as_str(), "apiKey") {
        Some(AuthMethod::ApiKey { location: or_empty_of(&d.location), name: or_empty_of(&d.name) })
    } else if str_eq(d.sec_type.as_str(), "basic") {
        Some(AuthMethod::Basic)
    } else if str_eq(d.sec_type.as_str(), "oauth2") {
        let flows: Vec<String> = match &d.flow {
            Some(f) => vec![f.clone()],
            None => Vec::new(),
        };
        assert(strings_view(flows@) =~= match d.flow {
            Some(f) => seq![f@],
            None => Seq::<Seq<char>>::empty(),
        });
        Some(AuthMethod::OAuth2 { flows })
    } else {
        None
    }
}

/// The authentication methods of the security definitions.
pub fn extract_auth(doc: &SwaggerSpec) -> (r: Vec<AuthMethod>)
    ensures
        crate::ir::auths_view(r@) == swagger_auths(*doc),
{
    let defs = &doc.security_definitions;
    let mut methods: Vec<AuthMethod> = Vec::new();
    let mut i: usize = 0;
    while i < defs.len()
        invariant
            i <= defs@.len(),
            crate::ir::auths_view(methods@) == security_auths(defs@.take(i as int)),
        decreases defs@.len() - i,
    {
        assert(defs@.take(i + 1).drop_last() =~= defs@.take(i as int));
        let a = security_auth_of(&defs[i].1);
        match a {
            Some(m) => {
                let ghost mv = m@;
                methods.push(m);
                assert(crate::ir::auths_view(methods@) =~= security_auths(defs@.take(i as int)).push(
                    mv,
                ));
            },
            None => {},
        }
        i = i + 1;
    }
    assert(defs@.take(defs@.len() as int) =~= defs@);
    if methods.len() == 0 {
        methods.push(AuthMethod::NoAuth);
        assert(crate::ir::auths_view(methods@) =~= seq![AuthMethodView::NoAuth]);
    }
    methods
}

// ---------------------------------------------------------------------------
// Endpoints
// ---------------------------------------------------------------------------
/// The HTTP method an operation key names, if it names one.
pub open spec fn method_named(s: Seq<char>) -> Option<HttpMethod> {
    if s == "get"@ {
        Some(HttpMethod::Get)
    } else if s == "post"@ {
        Some(HttpMethod::Post)
    } else if s == "put"@ {
        Some(HttpMethod::Put)
    } else if s == "patch"@ {
        Some(HttpMethod::Patch)
    } else if s == "delete"@ {
        Some(HttpMethod::Delete)
    } else if s == "head"@ {
        Some(HttpMethod::Head)
    } else if s == "options"@ {
        Some(HttpMethod::Options)
    } else {
        None
    }
}

/// The method name in lower case.
pub open spec fn lower_method_name(m: HttpMethod) -> Seq<char> {
    m.text().map_values(|c: char| ascii_lower(c))
}

/// An operation key names a method exactly when it is that method's name in
/// lower case (`get` for GET, `post` for POST, ...), so distinct keys give
/// distinct methods.
pub proof fn lemma_method_keys(key: Seq<char>, m: HttpMethod)
    ensures
        method_named(key) == Some(m) <==> key == lower_method_name(m),
{
    reveal_strlit("get");
    reveal_strlit("post");
    reveal_strlit("put");
    reveal_strlit("patch");
    reveal_strlit("delete");
    reveal_strlit("head");
    reveal_strlit("options");
    assert(lower_method_name(HttpMethod::Get) =~= "get"@);
    assert(lower_method_name(HttpMethod::Post) =~= "post"@);
    assert(lower_method_name(HttpMethod::Put) =~= "put"@);
    assert(lower_method_name(HttpMethod::Patch) =~= "patch"@);
    assert(lower_method_name(HttpMethod::Delete) =~= "delete"@);
    assert(lower_method_name(HttpMethod::Head) =~= "head"@);
    assert(lower_method_name(HttpMethod::Options) =~= "options"@);
    let names = seq!["get"@, "post"@, "put"@, "patch"@, "delete"@, "head"@, "options"@];
    assert forall|i: int, j: int| 0 <= i < j < 7 implies names[i] != names[j] by {
        assert(names[i].len() != names[j].len() || names[i][0] != names[j][0] || names[i][1]
            != names[j][1]);
    }
    assert(names[0] != names[1] && names[0] != names[2] && names[1] != names[2]);
    assert(names[3] != names[4] && names[3] != names[5] && names[4] != names[5] && names[5]
        != names[6]);
    assert(names[0] != names[3] && names[0] != names[4] && names[0] != names[5] && names[0]
        != names[6]);
    assert(names[1] != names[3] && names[1] != names[4] && names[1] != names[5] && names[1]
        != names[6]);
    assert(names[2] != names[3] && names[2] != names[4] && names[2] != names[5] && names[2]
        != names[6]);
    assert(names[3] != names[6] && names[4] != names[6]);
}

/// `path`, `query` and `header` name their location; anything else is a query
/// parameter.
pub open spec fn location_named(s: Seq<char>) -> ParameterLocation {
    if s == "path"@ {
        ParameterLocation::Path
    } else if s == "query"@ {
        ParameterLocation::Query
    } else if s == "header"@ {
        ParameterLocation::Header
    } else {
        ParameterLocation::Query
    }
}

/// A parameter's `in` names its location when it is `path`, `query` or
/// `header`: the location's own name is that text. Any other text gives a
/// query parameter.
pub proof fn lemma_location_named_by_in(s: Seq<char>)
    ensures
        location_named(s).text() == s || location_named(s) == ParameterLocation::Query,
        location_named(ParameterLocation::Path.text()) == ParameterLocation::Path,
        location_named(ParameterLocation::Query.text()) == ParameterLocation::Query,
        location_named(ParameterLocation::Header.text()) == ParameterLocation::Header,
        location_named(s) != ParameterLocation::Cookie,
{
    reveal_strlit("path");
    reveal_strlit("query");
    reveal_strlit("header");
    assert("path"@ != "query"@ && "path"@ != "header"@ && "query"@ != "header"@) by {
        assert("path"@[0] != "query"@[0] && "path"@.len() != "header"@.len() && "query"@[0]
            != "header"@[0]);
    }
}

pub open spec fn swagger_parameter(p: SwaggerParameter) -> ParameterView {
    ParameterView {
        name: p.name@,
        location: location_named(p.location@),
        description: or_empty(p.description),
        required: p.required,
        schema_type: or_string(p.param_type),
    }
}

/// A Swagger parameter keeps its name, its `required` flag and its
/// description (empty when absent), and is located where its `in` says.
pub proof fn lemma_swagger_parameter_kept(p: SwaggerParameter)
    ensures
        swagger_parameter(p).name == p.name@,
        swagger_parameter(p).required == p.required,
        swagger_parameter(p).location == location_named(p.location@),
        p.description matches Some(d) ==> swagger_parameter(p).description == d@,
        p.description is None ==> swagger_parameter(p).description.len() == 0,
{
}

pub open spec fn swagger_response(r: (String, SwaggerResponse)) -> ResponseView {
    ResponseView { status_code: r.0@, description: or_empty(r.1.description), schema: None }
}

pub open spec fn swagger_endpoint(path: String, method: HttpMethod, op: SwaggerOperation) -> EndpointView {
    EndpointView {
        path: path@,
        method,
        summary: or_empty(op.summary),
        description: or_empty(op.description),
        parameters: op.parameters@.map_values(|p: SwaggerParameter| swagger_parameter(p)),
        request_body: None,
        responses: op.responses@.map_values(|r: (String, SwaggerResponse)| swagger_response(r)),
        tags: strings_view(op.tags@),
    }
}

/// The endpoints of one path, for the operations keyed by a known method.
pub open spec fn path_endpoints(path: String, ops: Seq<(String, SwaggerOperation)>) -> Seq<
    EndpointView,
>
    decreases ops.len(),
{
    if ops.len() == 0 {
        Seq::empty()
    } else {
        let prev = path_endpoints(path, ops.drop_last());
        match method_named(ops.last().0@) {
            Some(m) => prev.push(swagger_endpoint(path, m, ops.last().1)),
            None => prev,
        }
    }
}

/// The endpoints of all paths, in order.
pub open spec fn all_path_endpoints(paths: Seq<(String, Vec<(String, SwaggerOperation)>)>) -> Seq<
    EndpointView,
>
    decreases paths.len(),
{
    if paths.len() == 0 {
        Seq::empty()
    } else {
        all_path_endpoints(paths.drop_last()) + path_endpoints(paths.last().0, paths.last().1@)
    }
}

/// The first `MAX_ENDPOINTS` endpoints of the document.
pub open spec fn swagger_endpoints(doc: SwaggerSpec) -> Seq<EndpointView> {
    let all = all_path_endpoints(doc.paths@);
    all.take(min(all.len() as int, MAX_ENDPOINTS as int))
}

fn method_named_of(s: &String) -> (r: Option<HttpMethod>)
    ensures
        r == method_named(s@),
{
    let t = s.as_str();
    if str_eq(t, "get") {
        Some(HttpMethod::Get)
    } else if str_eq(t, "post") {
        Some(HttpMethod::Post)
    } else if str_eq(t, "put") {
        Some(HttpMethod::Put)
    } else if str_eq(t, "patch") {
        Some(HttpMethod::Patch)
    } else if str_eq(t, "delete") {
        Some(HttpMethod::Delete)
    } else if str_eq(t, "head") {
        Some(HttpMethod::Head)
    } else if str_eq(t, "options") {
        Some(HttpMethod::Options)
    } else {
        None
    }
}

fn location_named_of(s: &String) -> (r: ParameterLocation)
    ensures
        r == location_named(s@),
{
    let t = s.as_str();
    if str_eq(t, "path") {
        ParameterLocation::Path
    } else if str_eq(t, "query") {
        ParameterLocation::Query
    } else if str_eq(t, "header") {
        ParameterLocation::Header
    } else {
        ParameterLocation::Query
    }
}

fn swagger_endpoint_of(path: &String, method: HttpMethod, op: &SwaggerOperation) -> (e: Endpoint)
    ensures
        e@ == swagger_endpoint(*path, method, *op),
{
    let mut parameters: Vec<Parameter> = Vec::new();
    let mut i: usize = 0;
    while i < op.parameters.len()
        invariant
            i <= op.parameters@.len(),
            parameters@.len() == i,
            forall|k: int|
                0 <= k < i ==> #[trigger] parameters@[k]@ == swagger_parameter(op.parameters@[k]),
        decreases op.parameters@.len() - i,
    {
        let p = &op.parameters[i];
        parameters.push(
            Parameter {
                name: p.name.clone(),
                location: location_named_of(&p.location),
                description: or_empty_of(&p.description),
                required: p.required,
                schema_type: or_string_of(&p.param_type),
            },
        );
        i = i + 1;
    }
    let mut responses: Vec<Response> = Vec::new();
    let mut j: usize = 0;
    while j < op.responses.len()
        invariant
            j <= op.responses@.len(),
            responses@.len() == j,
            forall|k: int|
                0 <= k < j ==> #[trigger] responses@[k]@ == swagger_response(op.responses@[k]),
        decreases op.responses@.len() - j,
    {
        let r = &op.responses[j];
        responses.push(
            Response {
                status_code: r.0.clone(),
                description: or_empty_of(&r.1.description),
                schema: None,
            },
        );
        j = j + 1;
    }
    let e = Endpoint {
        path: path.clone(),
        method,
        summary: or_empty_of(&op.summary),
        description: or_empty_of(&op.description),
        parameters,
        request_body: None,
        responses,
        tags: clone_strings(&op.tags),
    };
    assert(crate::ir::parameters_view(e.parameters@) =~= op.parameters@.map_values(
        |p: SwaggerParameter| swagger_parameter(p),
    ));
    assert(crate::ir::responses_view(e.responses@) =~= op.responses@.map_values(
        |r: (String, SwaggerResponse)| swagger_response(r),
    ));
    e
}

proof fn lemma_take_push_capped(all: Seq<EndpointView>, e: EndpointView)
    ensures
        all.push(e).take(min(all.len() + 1 as int, MAX_ENDPOINTS as int)) == if all.len()
            < MAX_ENDPOINTS {
            all.take(min(all.len() as int, MAX_ENDPOINTS as int)).push(e)
        } else {
            all.take(min(all.len() as int, MAX_ENDPOINTS as int))
        },
{
    if all.len() < MAX_ENDPOINTS {
        assert(all.push(e).take((all.len() + 1) as int) =~= all.take(all.len() as int).push(e));
    } else {
        assert(all.push(e).take(MAX_ENDPOINTS as int) =~= all.take(MAX_ENDPOINTS as int));
    }
}

/// The endpoints of the document's paths, at most `MAX_ENDPOINTS`.
pub fn extract_endpoints(doc: &SwaggerSpec) -> (r: Vec<Endpoint>)
    ensures
        crate::ir::endpoints_view(r@) == swagger_endpoints(*doc),
{
    let paths = &doc.paths;
    let mut endpoints: Vec<Endpoint> = Vec::new();
    let ghost mut all: Seq<EndpointView> = Seq::empty();
    let mut i: usize = 0;
    while i < paths.len()
        invariant
            i <= paths@.len(),
            all == all_path_endpoints(paths@.take(i as int)),
            crate::ir::endpoints_view(endpoints@) == all.take(
                min(all.len() as int, MAX_ENDPOINTS as int),
            ),
        decreases paths@.len() - i,
    {
        let path = &paths[i].0;
        let ops = &paths[i].1;
        let ghost before = all;
        let mut k: usize = 0;
        while k < ops.len()
            invariant
                k <= ops@.len(),
                all == before + path_endpoints(*path, ops@.take(k as int)),
                crate::ir::endpoints_view(endpoints@) == all.take(
                    min(all.len() as int, MAX_ENDPOINTS as int),
                ),
            decreases ops@.len() - k,
        {
            assert(ops@.take(k + 1).drop_last() =~= ops@.take(k as int));
            let m = method_named_of(&ops[k].0);
            match m {
                Some(method) => {
                    let e = swagger_endpoint_of(path, method, &ops[k].1);
                    let ghost ev_item = e@;
                    let ghost ev_before = crate::ir::endpoints_view(endpoints@);
                    proof {
                        lemma_take_push_capped(all, ev_item);
                    }
                    if endpoints.len() < MAX_ENDPOINTS {
                        endpoints.push(e);
                        assert(crate::ir::endpoints_view(endpoints@) =~= ev_before.push(ev_item));
                    }
                    proof {
                        assert(path_endpoints(*path, ops@.take(k + 1)) == path_endpoints(
                            *path,
                            ops@.take(k as int),
                        ).push(ev_item));
                        assert(before + path_endpoints(*path, ops@.take(k + 1)) =~= all.push(ev_item));
                        all = all.push(ev_item);
                    }
                },
                None => {},
            }
            k = k + 1;
        }
        proof {
            assert(ops@.take(ops@.len() as int) =~= ops@);
            assert(paths@.take(i + 1).drop_last() =~= paths@.take(i as int));
        }
        i = i + 1;
    }
    assert(paths@.take(paths@.len() as int) =~= paths@);
    endpoints
}

// ---------------------------------------------------------------------------
// Definitions
// ---------------------------------------------------------------------------
pub open spec fn definition_property(
    def: SwaggerSchema,
    entry: (String, SwaggerSchemaProperty),
) -> SchemaPropertyView {
    SchemaPropertyView {
        name: entry.0@,
        type_label: or_string(entry.1.prop_type),
        description: or_empty(entry.1.description),
        required: strings_view(def.required@).contains(entry.0@),
    }
}

/// A definition as a schema, with at most `MAX_SCHEMA_PROPERTIES` properties.
pub open spec fn definition_schema(entry: (String, SwaggerSchema)) -> SchemaView {
    let def = entry.1;
    SchemaView {
        type_label: entry.0@,
        format: opt_view(def.schema_type),
        properties: def.properties@.take(
            min(def.properties@.len() as int, MAX_SCHEMA_PROPERTIES as int),
        ).map_values(|p: (String, SwaggerSchemaProperty)| definition_property(def, p)),
        required_fields: strings_view(def.required@),
        enum_values: strings_view(def.enum_values@),
        description: or_empty(def.description),
    }
}

pub open spec fn swagger_schemas(doc: SwaggerSpec) -> Seq<SchemaView> {
    doc.definitions@.map_values(|d: (String, SwaggerSchema)| definition_schema(d))
}

fn contains_string(v: &Vec<String>, s: &String) -> (r: bool)
    ensures
        r == strings_view(v@).contains(s@),
{
    let mut i: usize = 0;
    while i < v.len()
        invariant
            i <= v@.len(),
            forall|k: int| 0 <= k < i ==> v@[k]@ != s@,
        decreases v@.len() - i,
    {
        if str_eq(v[i].as_str(), s.as_str()) {
            assert(strings_view(v@)[i as int] == s@);
            return true;
        }
        i = i + 1;
    }
    assert forall|k: int| 0 <= k < strings_view(v@).len() implies strings_view(v@)[k] != s@ by {
        assert(strings_view(v@)[k] == v@[k]@);
    }
    false
}

fn definition_schema_of(entry: &(String, SwaggerSchema)) -> (s: Schema)
    ensures
        s@ == definition_schema(*entry),
{
    let def = &entry.1;
    let mut properties: Vec<SchemaProperty> = Vec::new();
    let mut i: usize = 0;
    while i < def.properties.len() && i < MAX_SCHEMA_PROPERTIES
        invariant
            i <= def.properties@.len(),
            i <= MAX_SCHEMA_PROPERTIES,
            properties@.len() == i,
            forall|k: int|
                0 <= k < i ==> #[trigger] properties@[k]@ == definition_property(
                    *def,
                    def.properties@[k],
                ),
        decreases def.properties@.len() - i,
    {
        let p = &def.properties[i];
        properties.push(
            SchemaProperty {
                name: p.0.clone(),
                type_label: or_string_of(&p.1.prop_type),
                description: or_empty_of(&p.1.description),
                required: contains_string(&def.required, &p.0),
            },
        );
        i = i + 1;
    }
    let format = match &def.schema_type {
        Some(t) => Some(t.clone()),
        None => None,
    };
    let s = Schema {
        type_label: entry.0.clone(),
        format,
        properties,
        required_fields: clone_strings(&def.required),
        enum_values: clone_strings(&def.enum_values),
        description: or_empty_of(&def.description),
    };
    assert(crate::ir::properties_view(s.properties@) =~= definition_schema(*entry).properties);
    s
}

/// The document's definitions as schemas.
pub fn extract_definitions(doc: &SwaggerSpec) -> (r: Vec<Schema>)
    ensures
        crate::ir::schemas_view(r@) == swagger_schemas(*doc),
{
    let mut r: Vec<Schema> = Vec::new();
    let mut i: usize = 0;
    while i < doc.definitions.len()
        invariant
            i <= doc.definitions@.len(),
            r@.len() == i,
            forall|k: int| 0 <= k < i ==> #[trigger] r@[k]@ == definition_schema(doc.definitions@[k]),
        decreases doc.definitions@.len() - i,
    {
        let s = definition_schema_of(&doc.definitions[i]);
        r.push(s);
        i = i + 1;
    }
    assert(crate::ir::schemas_view(r@) =~= swagger_schemas(*doc));
    r
}

// ---------------------------------------------------------------------------
// The API description
// ---------------------------------------------------------------------------
/// The API description of a Swagger 2.0 document.
pub open spec fn swagger_spec(doc: SwaggerSpec) -> ApiSpecView {
    ApiSpecView {
        name: doc.info.title@,
        version: Some(doc.info.version@),
        description: or_empty(doc.info.description),
        base_url: swagger_base_url(doc),
        spec_format: SpecFormat::Swagger2,
        auth_methods: swagger_auths(doc),
        endpoints: swagger_endpoints(doc),
        schemas: swagger_schemas(doc),
    }
}

/// Whether the content looks like a Swagger 2.0 document: it mentions
/// `swagger` and a `2.` version.
pub open spec fn swagger_detected(content: Seq<char>) -> bool {
    contains_text(content, "swagger"@) && contains_text(content, "2."@)
}

fn base_url_of(doc: &SwaggerSpec) -> (r: Option<String>)
    ensures
        opt_view(r) == swagger_base_url(*doc),
{
    match (&doc.host, &doc.base_path) {
        (Some(host), Some(base)) => {
            let mut u = owned("https://");
            put(&mut u, host.as_str());
            put(&mut u, base.as_str());
            Some(u)
        },
        (Some(host), None) => {
            let mut u = owned("https://");
            put(&mut u, host.as_str());
            Some(u)
        },
        _ => None,
    }
}

impl ApiParser for Swagger2Parser {
    fn name(&self) -> (r: &'static str)
        ensures
            r@ == "Swagger 2.0"@,
    {
        "Swagger 2.0"
    }

    fn format(&self) -> (r: SpecFormat)
        ensures
            r == SpecFormat::Swagger2,
    {
        SpecFormat::Swagger2
    }

    /// Returns true if the content appears to be a Swagger 2.0 document.
    fn detect(&self, content: &str) -> (r: bool)
        ensures
            r == swagger_detected(content@),
    {
        contains_str(content, "swagger") && contains_str(content, "2.")
    }

    fn parse(&self, source: &SpecSource) -> (r: Result<ApiSpec, GuardError>)
        ensures
            parse_outcome(SpecFormat::Swagger2, *source, r),
    {
        match source {
            SpecSource::Swagger2(doc) => Ok(self.parse_document(doc)),
            _ => Err(GuardError::SourceMismatch(SpecFormat::Swagger2)),
        }
    }
}

impl Swagger2Parser {
    /// The API description of a decoded Swagger 2.0 document.
    pub fn parse_document(&self, doc: &SwaggerSpec) -> (r: ApiSpec)
        ensures
            r@ == swagger_spec(*doc),
            r@.endpoints.len() <= MAX_ENDPOINTS,
    {
        let base_url = base_url_of(doc);
        let auth_methods = extract_auth(doc);
        let endpoints = extract_endpoints(doc);
        let schemas = extract_definitions(doc);
        ApiSpec {
            name: doc.info.title.clone(),
            version: Some(doc.info.version.clone()),
            description: or_empty_of(&doc.info.description),
            base_url,
            spec_format: SpecFormat::Swagger2,
            auth_methods,
            endpoints,
            schemas,
        }
    }
}

} // verus!
