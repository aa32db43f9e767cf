//! GraphQL SDL: `type Query` fields become GET endpoints, `type Mutation`
//! fields POST endpoints, and the other object types become schemas.
use crate::ir::{
    ApiSpec, ApiSpecView, AuthMethod, AuthMethodView, Endpoint, EndpointView, HttpMethod,
    Parameter, ParameterLocation, ParameterView, Response, ResponseView, Schema, SchemaProperty,
    SchemaPropertyView, SchemaView, SpecFormat,
};
use crate::pattern::{
    all_matches, escape_pattern, group_is_present, group_present, group_string, group_text,
    group_trimmed, group_trimmed_string, matches_of, regex_capture_groups, regex_escaped, Groups,
};
use crate::security::{MAX_ENDPOINTS, MAX_SCHEMA_PROPERTIES};
use crate::text::{contains_str, contains_text, ends_with, ends_with_char, owned, put, str_eq};
use crate::error::GuardError;
use crate::parser::{parse_outcome, ApiParser, SpecSource};
use vstd::prelude::*;
use vstd::string::*;

verus! {

/// A type definition, with an optional `"""description"""` before it.
pub const RE_TYPE_DEF: &'static str = r#"(?:"""([^"]*?)"""\s*)?type\s+(\w+)\s*\{([^}]*)\}"#;

/// A field of a type body: description, name, argument list, type.
pub const RE_FIELD: &'static str = r#"(?m)(?:"""([^"]*?)"""\s*)?^\s+(\w+)(?:\(([^)]*)\))?\s*:\s*([\w\[\]!]+)"#;

/// An argument of a field: name and type.
pub const RE_ARG: &'static str = r"(\w+)\s*:\s*([\w\[\]!]+)";

/// The GraphQL SDL parser.
pub struct GraphQlParser;

/// An argument of a field.
pub struct ArgDef {
    pub name: String,
    pub type_label: String,
    pub required: bool,
}

pub struct ArgDefView {
    pub name: Seq<char>,
    pub type_label: Seq<char>,
    pub required: bool,
}

impl View for ArgDef {
    type V = ArgDefView;

    open spec fn view(&self) -> ArgDefView {
        ArgDefView { name: self.name@, type_label: self.type_label@, required: self.required }
    }
}

pub open spec fn args_view(v: Seq<ArgDef>) -> Seq<ArgDefView> {
    v.map_values(|a: ArgDef| a@)
}

/// A field of a type.
pub struct FieldDef {
    pub name: String,
    pub return_type: String,
    pub description: String,
    pub args: Vec<ArgDef>,
}

pub struct FieldDefView {
    pub name: Seq<char>,
    pub return_type: Seq<char>,
    pub description: Seq<char>,
    pub args: Seq<ArgDefView>,
}

impl View for FieldDef {
    type V = FieldDefView;

    open spec fn view(&self) -> FieldDefView {
        FieldDefView {
            name: self.name@,
            return_type: self.return_type@,
            description: self.description@,
            args: args_view(self.args@),
        }
    }
}

pub open spec fn fields_view(v: Seq<FieldDef>) -> Seq<FieldDefView> {
    v.map_values(|f: FieldDef| f@)
}

/// An object type definition.
pub struct TypeDef {
    pub name: String,
    pub description: String,
    pub fields: Vec<FieldDef>,
}

pub struct TypeDefView {
    pub name: Seq<char>,
    pub description: Seq<char>,
    pub fields: Seq<FieldDefView>,
}

impl View for TypeDef {
    type V = TypeDefView;

    open spec fn view(&self) -> TypeDefView {
        TypeDefView {
            name: self.name@,
            description: self.description@,
            fields: fields_view(self.fields@),
        }
    }
}

pub open spec fn types_view(v: Seq<TypeDef>) -> Seq<TypeDefView> {
    v.map_values(|t: TypeDef| t@)
}

// ---------------------------------------------------------------------------
// Arguments
// ---------------------------------------------------------------------------
/// An argument from the groups of an argument match; it is required when its
/// type ends in `!`.
pub open spec fn arg_from(c: Groups) -> ArgDefView {
    ArgDefView {
        name: group_text(c, 1),
        type_label: group_text(c, 2),
        required: ends_with_char(group_text(c, 2), '!'),
    }
}

/// An argument is required exactly when its type is non-null (ends in `!`),
/// and keeps its name and type as written.
pub proof fn lemma_arg_required_when_non_null(c: Groups)
    ensures
        arg_from(c).required <==> (arg_from(c).type_label.len() > 0
            && arg_from(c).type_label.last() == '!'),
        arg_from(c).name == group_text(c, 1),
        arg_from(c).type_label == group_text(c, 2),
{
}

pub open spec fn parsed_args(s: Seq<char>) -> Seq<ArgDefView> {
    all_matches(RE_ARG@, s).map_values(|c: Groups| arg_from(c))
}

/// The arguments that the given argument matches describe.
pub fn args_from_matches(ms: &Vec<Vec<Option<String>>>) -> (r: Vec<ArgDef>)
    ensures
        args_view(r@) == ms.deep_view().map_values(|c: Groups| arg_from(c)),
{
    let mut r: Vec<ArgDef> = Vec::new();
    let mut i: usize = 0;
    while i < ms.len()
        invariant
            i <= ms@.len(),
            r@.len() == i,
            forall|k: int| 0 <= k < i ==> #[trigger] r@[k]@ == arg_from(ms@[k].deep_view()),
        decreases ms@.len() - i,
    {
        let c = &ms[i];
        let type_label = group_string(c, 2);
        let required = ends_with(type_label.as_str(), '!');
        r.push(ArgDef { name: group_string(c, 1), type_label, required });
        i = i + 1;
    }
    assert(args_view(r@) =~= ms.deep_view().map_values(|c: Groups| arg_from(c)));
    r
}

/// The arguments in a field's argument list.
pub fn parse_args(args_str: &str) -> (r: Vec<ArgDef>)
    ensures
        args_view(r@) == parsed_args(args_str@),
{
    let ms = matches_of(RE_ARG, args_str);
    args_from_matches(&ms)
}

// ---------------------------------------------------------------------------
// Fields
// ---------------------------------------------------------------------------
/// A field from the groups of a field match.
pub open spec fn field_from(c: Groups) -> FieldDefView {
    FieldDefView {
        name: group_text(c, 2),
        return_type: group_text(c, 4),
        description: group_trimmed(c, 1),
        args: if group_present(c, 3) {
            parsed_args(group_text(c, 3))
        } else {
            Seq::empty()
        },
    }
}

pub open spec fn parsed_fields(body: Seq<char>) -> Seq<FieldDefView> {
    all_matches(RE_FIELD@, body).map_values(|c: Groups| field_from(c))
}

fn field_from_groups(c: &Vec<Option<String>>) -> (f: FieldDef)
    ensures
        f@ == field_from(c.deep_view()),
{
    let description = group_trimmed_string(c, 1);
    let name = group_string(c, 2);
    let return_type = group_string(c, 4);
    let args = if group_is_present(c, 3) {
        let a = group_string(c, 3);
        parse_args(a.as_str())
    } else {
        let v: Vec<ArgDef> = Vec::new();
        assert(args_view(v@) =~= Seq::<ArgDefView>::empty());
        v
    };
    FieldDef { name, return_type, description, args }
}

/// The fields that the given field matches describe.
pub fn fields_from_matches(ms: &Vec<Vec<Option<String>>>) -> (r: Vec<FieldDef>)
    ensures
        fields_view(r@) == ms.deep_view().map_values(|c: Groups| field_from(c)),
{
    let mut r: Vec<FieldDef> = Vec::new();
    let mut i: usize = 0;
    while i < ms.len()
        invariant
            i <= ms@.len(),
            r@.len() == i,
            forall|k: int| 0 <= k < i ==> #[trigger] r@[k]@ == field_from(ms@[k].deep_view()),
        decreases ms@.len() - i,
    {
        let f = field_from_groups(&ms[i]);
        r.push(f);
        i = i + 1;
    }
    assert(fields_view(r@) =~= ms.deep_view().map_values(|c: Groups| field_from(c)));
    r
}

/// The fields of a type body.
pub fn parse_fields(body: &str) -> (r: Vec<FieldDef>)
    ensures
        fields_view(r@) == parsed_fields(body@),
{
    let ms = matches_of(RE_FIELD, body);
    fields_from_matches(&ms)
}

// ---------------------------------------------------------------------------
// Type definitions
// ---------------------------------------------------------------------------
/// `Query`, `Mutation` and `Subscription` are the root types, handled apart.
pub open spec fn is_root_type(name: Seq<char>) -> bool {
    name == "Query"@ || name == "Mutation"@ || name == "Subscription"@
}

pub open spec fn type_def_from(c: Groups) -> TypeDefView {
    TypeDefView {
        name: group_text(c, 2),
        description: group_trimmed(c, 1),
        fields: parsed_fields(group_text(c, 3)),
    }
}

/// The type definitions of the matches, the root types left out.
pub open spec fn type_defs_from(ms: Seq<Groups>) -> Seq<TypeDefView>
    decreases ms.len(),
{
    if ms.len() == 0 {
        Seq::empty()
    } else {
        let prev = type_defs_from(ms.drop_last());
        if is_root_type(group_text(ms.last(), 2)) {
            prev
        } else {
            prev.push(type_def_from(ms.last()))
        }
    }
}

pub open spec fn parsed_type_definitions(content: Seq<char>) -> Seq<TypeDefView> {
    type_defs_from(all_matches(RE_TYPE_DEF@, content))
}

fn is_root_type_exec(name: &String) -> (r: bool)
    ensures
        r == is_root_type(name@),
{
    str_eq(name.as_str(), "Query") || str_eq(name.as_str(), "Mutation") || str_eq(
        name.as_str(),
        "Subscription",
    )
}

/// The type definitions that the given type matches describe, the root
/// types left out.
pub fn type_defs_from_matches(ms: &Vec<Vec<Option<String>>>) -> (r: Vec<TypeDef>)
    ensures
        types_view(r@) == type_defs_from(ms.deep_view()),
{
    let ghost mv = ms.deep_view();
    let mut r: Vec<TypeDef> = Vec::new();
    let mut i: usize = 0;
    while i < ms.len()
        invariant
            i <= ms@.len(),
            mv == ms.deep_view(),
            mv.len() == ms@.len(),
            types_view(r@) == type_defs_from(mv.take(i as int)),
        decreases ms@.len() - i,
    {
        assert(mv.take(i + 1).drop_last() =~= mv.take(i as int));
        assert(mv.take(i + 1).last() == ms@[i as int].deep_view());
        let c = &ms[i];
        let name = group_string(c, 2);
        if !is_root_type_exec(&name) {
            let description = group_trimmed_string(c, 1);
            let body = group_string(c, 3);
            let fields = parse_fields(body.as_str());
            r.push(TypeDef { name, description, fields });
            assert(types_view(r@) =~= type_defs_from(mv.take(i as int)).push(
                type_def_from(ms@[i as int].deep_view()),
            ));
        }
        i = i + 1;
    }
    assert(mv.take(mv.len() as int) =~= mv);
    r
}

/// The object types of the schema, the root types left out.
pub fn parse_type_definitions(content: &str) -> (r: Vec<TypeDef>)
    ensures
        types_view(r@) == parsed_type_definitions(content@),
{
    let ms = matches_of(RE_TYPE_DEF, content);
    type_defs_from_matches(&ms)
}

/// The pattern that finds the body of the type named `target_type`.
pub open spec fn type_fields_pattern(target_type: Seq<char>) -> Seq<char> {
    r"type\s+"@ + regex_escaped(target_type) + r"\s*\{([^}]*)}"@
}

/// The fields of the first type body that the matches describe.
pub open spec fn type_fields_from(ms: Seq<Groups>) -> Seq<FieldDefView> {
    if ms.len() > 0 {
        parsed_fields(group_text(ms[0], 1))
    } else {
        Seq::empty()
    }
}

/// The fields of the type named `target_type` in `content`.
pub open spec fn extracted_type_fields(content: Seq<char>, target_type: Seq<char>) -> Seq<
    FieldDefView,
> {
    type_fields_from(all_matches(type_fields_pattern(target_type), content))
}

/// The fields of the first type body among the given matches.
pub fn type_fields_from_matches(ms: &Vec<Vec<Option<String>>>) -> (r: Vec<FieldDef>)
    ensures
        fields_view(r@) == type_fields_from(ms.deep_view()),
{
    if ms.len() > 0 {
        let body = group_string(&ms[0], 1);
        parse_fields(body.as_str())
    } else {
        let r: Vec<FieldDef> = Vec::new();
        assert(fields_view(r@) =~= Seq::<FieldDefView>::empty());
        r
    }
}

/// The fields of the type named `target_type`; none when there is no such type.
pub fn extract_type_fields(content: &str, target_type: &str) -> (r: Vec<FieldDef>)
    ensures
        fields_view(r@) == extracted_type_fields(content@, target_type@),
{
    let escaped_name = escape_pattern(target_type);
    let mut pattern = owned(r"type\s+");
    put(&mut pattern, escaped_name.as_str());
    put(&mut pattern, r"\s*\{([^}]*)}");
    let ms = matches_of(pattern.as_str(), content);
    type_fields_from_matches(&ms)
}

// ---------------------------------------------------------------------------
// The API description
// ---------------------------------------------------------------------------
pub open spec fn arg_parameter(a: ArgDefView) -> ParameterView {
    ParameterView {
        name: a.name,
        location: ParameterLocation::Query,
        description: Seq::empty(),
        required: a.required,
        schema_type: a.type_label,
    }
}

pub open spec fn returns_response(f: FieldDefView) -> ResponseView {
    ResponseView { status_code: "200"@, description: "Returns "@ + f.return_type, schema: None }
}

/// The GET endpoint of a query field.
pub open spec fn query_endpoint(f: FieldDefView) -> EndpointView {
    EndpointView {
        path: f.name,
        method: HttpMethod::Get,
        summary: f.description,
        description: f.description,
        parameters: f.args.map_values(|a: ArgDefView| arg_parameter(a)),
        request_body: None,
        responses: seq![returns_response(f)],
        tags: seq!["Query"@],
    }
}

/// The POST endpoint of a mutation field.
pub open spec fn mutation_endpoint(f: FieldDefView) -> EndpointView {
    EndpointView {
        path: f.name,
        method: HttpMethod::Post,
        summary: f.description,
        description: f.description,
        parameters: f.args.map_values(|a: ArgDefView| arg_parameter(a)),
        request_body: None,
        responses: seq![returns_response(f)],
        tags: seq!["Mutation"@],
    }
}

pub open spec fn min(a: int, b: int) -> int {
    if a <= b {
        a
    } else {
        b
    }
}

/// Query endpoints first, then mutation endpoints, at most `MAX_ENDPOINTS`.
pub open spec fn graphql_endpoints(content: Seq<char>) -> Seq<EndpointView> {
    let q = extracted_type_fields(content, "Query"@);
    let m = extracted_type_fields(content, "Mutation"@);
    let nq = min(q.len() as int, MAX_ENDPOINTS as int);
    q.take(nq).map_values(|f: FieldDefView| query_endpoint(f)) + m.take(
        min(m.len() as int, MAX_ENDPOINTS - nq),
    ).map_values(|f: FieldDefView| mutation_endpoint(f))
}

/// A field as a schema property; required when its name ends in `!`.
pub open spec fn field_property(f: FieldDefView) -> SchemaPropertyView {
    SchemaPropertyView {
        name: f.name,
        type_label: f.return_type,
        description: f.description,
        required: ends_with_char(f.name, '!'),
    }
}

/// The schema of an object type, with at most `MAX_SCHEMA_PROPERTIES` properties.
pub open spec fn type_schema(t: TypeDefView) -> SchemaView {
    SchemaView {
        type_label: t.name,
        format: None,
        properties: t.fields.take(min(t.fields.len() as int, MAX_SCHEMA_PROPERTIES as int)).map_values(
            |f: FieldDefView| field_property(f),
        ),
        required_fields: Seq::empty(),
        enum_values: Seq::empty(),
        description: t.description,
    }
}

/// The API description of a GraphQL schema.
pub open spec fn graphql_spec(content: Seq<char>) -> ApiSpecView {
    ApiSpecView {
        name: "GraphQL API"@,
        version: None,
        description: "GraphQL schema"@,
        base_url: None,
        spec_format: SpecFormat::GraphQl,
        auth_methods: seq![AuthMethodView::NoAuth],
        endpoints: graphql_endpoints(content),
        schemas: parsed_type_definitions(content).map_values(|t: TypeDefView| type_schema(t)),
    }
}

/// A Query field becomes a GET endpoint tagged `Query`, a Mutation field a
/// POST endpoint tagged `Mutation`; both are named by the field and take
/// each argument, in order, as a required-as-declared query parameter of
/// the argument's name and type.
pub proof fn lemma_field_endpoints(f: FieldDefView)
    ensures
        query_endpoint(f).method == HttpMethod::Get,
        query_endpoint(f).tags == seq!["Query"@],
        mutation_endpoint(f).method == HttpMethod::Post,
        mutation_endpoint(f).tags == seq!["Mutation"@],
        query_endpoint(f).path == f.name,
        mutation_endpoint(f).path == f.name,
        query_endpoint(f).parameters == mutation_endpoint(f).parameters,
        query_endpoint(f).parameters.len() == f.args.len(),
        forall|k: int|
            0 <= k < f.args.len() ==> {
                let p = #[trigger] query_endpoint(f).parameters[k];
                &&& p.name == f.args[k].name
                &&& p.schema_type == f.args[k].type_label
                &&& p.required == f.args[k].required
                &&& p.location == ParameterLocation::Query
            },
{
}

/// A Query or Mutation field's endpoint has the field's doc string as both
/// its summary and its description.
pub proof fn lemma_field_doc_is_summary(f: FieldDefView)
    ensures
        query_endpoint(f).summary == f.description,
        query_endpoint(f).description == f.description,
        mutation_endpoint(f).summary == f.description,
        mutation_endpoint(f).description == f.description,
{
}

/// Every endpoint of a GraphQL schema, query or mutation, has its summary
/// equal to its description.
pub proof fn lemma_graphql_summaries_are_descriptions(content: Seq<char>)
    ensures
        forall|i: int|
            0 <= i < graphql_spec(content).endpoints.len() ==> (#[trigger] graphql_spec(
                content,
            ).endpoints[i]).summary == graphql_spec(content).endpoints[i].description,
{
    let q = extracted_type_fields(content, "Query"@);
    let m = extracted_type_fields(content, "Mutation"@);
    let nq = min(q.len() as int, MAX_ENDPOINTS as int);
    let qs = q.take(nq).map_values(|f: FieldDefView| query_endpoint(f));
    let ms = m.take(min(m.len() as int, MAX_ENDPOINTS - nq)).map_values(
        |f: FieldDefView| mutation_endpoint(f),
    );
    let eps = graphql_spec(content).endpoints;
    assert(eps == qs + ms);
    assert forall|i: int| 0 <= i < eps.len() implies (#[trigger] eps[i]).summary
        == eps[i].description by {
        if i < qs.len() {
            assert(eps[i] == qs[i]);
        } else {
            assert(eps[i] == ms[i - qs.len()]);
        }
    }
}

/// Whether the content looks like a GraphQL schema.
pub open spec fn graphql_detected(content: Seq<char>) -> bool {
    (contains_text(content, "type Query"@) || contains_text(content, "type Mutation"@)) && (
    contains_text(content, "schema"@) || contains_text(content, "type "@))
}

fn returns_response_of(f: &FieldDef) -> (r: Vec<Response>)
    ensures
        crate::ir::responses_view(r@) == seq![returns_response(f@)],
{
    let mut d = owned("Returns ");
    put(&mut d, f.return_type.as_str());
    let r = vec![Response { status_code: owned("200"), description: d, schema: None }];
    assert(crate::ir::responses_view(r@) =~= seq![returns_response(f@)]);
    r
}

/// The parameters the arguments of a field become.
fn arg_parameters_of(f: &FieldDef) -> (parameters: Vec<Parameter>)
    ensures
        crate::ir::parameters_view(parameters@) == f@.args.map_values(
            |a: ArgDefView| arg_parameter(a),
        ),
{
    let mut parameters: Vec<Parameter> = Vec::new();
    let mut i: usize = 0;
    while i < f.args.len()
        invariant
            i <= f.args@.len(),
            parameters@.len() == i,
            forall|k: int| 0 <= k < i ==> #[trigger] parameters@[k]@ == arg_parameter(f.args@[k]@),
        decreases f.args@.len() - i,
    {
        let a = &f.args[i];
        parameters.push(
            Parameter {
                name: a.name.clone(),
                location: ParameterLocation::Query,
                description: String::new(),
                required: a.required,
                schema_type: a.type_label.clone(),
            },
        );
        i = i + 1;
    }
    assert(crate::ir::parameters_view(parameters@) =~= f@.args.map_values(
        |a: ArgDefView| arg_parameter(a),
    ));
    parameters
}

fn query_endpoint_of(f: &FieldDef) -> (e: Endpoint)
    ensures
        e@ == query_endpoint(f@),
{
    let parameters = arg_parameters_of(f);
    let tags = vec![owned("Query")];
    let e = Endpoint {
        path: f.name.clone(),
        method: HttpMethod::Get,
        summary: f.description.clone(),
        description: f.description.clone(),
        parameters,
        request_body: None,
        responses: returns_response_of(f),
        tags,
    };
    assert(crate::text::strings_view(e.tags@) =~= seq!["Query"@]);
    e
}

fn mutation_endpoint_of(f: &FieldDef) -> (e: Endpoint)
    ensures
        e@ == mutation_endpoint(f@),
{
    let parameters = arg_parameters_of(f);
    let tags = vec![owned("Mutation")];
    let e = Endpoint {
        path: f.name.clone(),
        method: HttpMethod::Post,
        summary: f.description.clone(),
        description: f.description.clone(),
        parameters,
        request_body: None,
        responses: returns_response_of(f),
        tags,
    };
    assert(crate::text::strings_view(e.tags@) =~= seq!["Mutation"@]);
    e
}

fn type_schema_of(t: &TypeDef) -> (s: Schema)
    ensures
        s@ == type_schema(t@),
{
    let mut properties: Vec<SchemaProperty> = Vec::new();
    let mut i: usize = 0;
    while i < t.fields.len() && i < MAX_SCHEMA_PROPERTIES
        invariant
            i <= t.fields@.len(),
            i <= MAX_SCHEMA_PROPERTIES,
            properties@.len() == i,
            forall|k: int|
                0 <= k < i ==> #[trigger] properties@[k]@ == field_property(t.fields@[k]@),
        decreases t.fields@.len() - i,
    {
        let f = &t.fields[i];
        let required = ends_with(f.name.as_str(), '!');
        properties.push(
            SchemaProperty {
                name: f.name.clone(),
                type_label: f.return_type.clone(),
                description: f.description.clone(),
                required,
            },
        );
        i = i + 1;
    }
    let s = Schema {
        type_label: t.name.clone(),
        format: None,
        properties,
        required_fields: Vec::new(),
        enum_values: Vec::new(),
        description: t.description.clone(),
    };
    assert(crate::ir::properties_view(s.properties@) =~= t@.fields.take(
        min(t@.fields.len() as int, MAX_SCHEMA_PROPERTIES as int),
    ).map_values(|f: FieldDefView| field_property(f)));
    assert(crate::text::strings_view(s.required_fields@) =~= Seq::<Seq<char>>::empty());
    assert(crate::text::strings_view(s.enum_values@) =~= Seq::<Seq<char>>::empty());
    s
}

impl ApiParser for GraphQlParser {
    fn name(&self) -> (r: &'static str)
        ensures
            r@ == "GraphQL"@,
    {
        "GraphQL"
    }

    fn format(&self) -> (r: SpecFormat)
        ensures
            r == SpecFormat::GraphQl,
    {
        SpecFormat::GraphQl
    }

    /// Returns true if the content appears to be a GraphQL schema.
    fn detect(&self, content: &str) -> (r: bool)
        ensures
            r == graphql_detected(content@),
    {
        (contains_str(content, "type Query") || contains_str(content, "type Mutation")) && (
        contains_str(content, "schema") || contains_str(content, "type "))
    }

    fn parse(&self, source: &SpecSource) -> (r: Result<ApiSpec, GuardError>)
        ensures
            parse_outcome(SpecFormat::GraphQl, *source, r),
    {
        match source {
            SpecSource::Text(t) => Ok(self.parse_text(t.as_str())),
            _ => Err(GuardError::SourceMismatch(SpecFormat::GraphQl)),
        }
    }
}

impl GraphQlParser {
    /// Parse GraphQL SDL into an `ApiSpec`.
    pub fn parse_text(&self, content: &str) -> (r: ApiSpec)
        ensures
            r@ == graphql_spec(content@),
            r@.endpoints.len() <= MAX_ENDPOINTS,
    {
        let types = parse_type_definitions(content);
        let query_fields = extract_type_fields(content, "Query");
        let mutation_fields = extract_type_fields(content, "Mutation");
        let ghost q = fields_view(query_fields@);
        let ghost m = fields_view(mutation_fields@);

        let mut endpoints: Vec<Endpoint> = Vec::new();
        let mut i: usize = 0;
        while i < query_fields.len() && endpoints.len() < MAX_ENDPOINTS
            invariant
                i <= query_fields@.len(),
                q == fields_view(query_fields@),
                endpoints@.len() == i,
                i <= MAX_ENDPOINTS,
                forall|k: int|
                    0 <= k < i ==> #[trigger] endpoints@[k]@ == query_endpoint(query_fields@[k]@),
            decreases query_fields@.len() - i,
        {
            let e = query_endpoint_of(&query_fields[i]);
            endpoints.push(e);
            i = i + 1;
        }
        let nq = i;
        assert(nq == min(q.len() as int, MAX_ENDPOINTS as int));
        let mut j: usize = 0;
        while j < mutation_fields.len() && endpoints.len() < MAX_ENDPOINTS
            invariant
                j <= mutation_fields@.len(),
                m == fields_view(mutation_fields@),
                endpoints@.len() == nq + j,
                nq + j <= MAX_ENDPOINTS,
                forall|k: int|
                    0 <= k < nq ==> #[trigger] endpoints@[k]@ == query_endpoint(query_fields@[k]@),
                forall|k: int|
                    0 <= k < j ==> #[trigger] endpoints@[nq + k]@ == mutation_endpoint(
                        mutation_fields@[k]@,
                    ),
            decreases mutation_fields@.len() - j,
        {
            let e = mutation_endpoint_of(&mutation_fields[j]);
            endpoints.push(e);
            j = j + 1;
        }
        assert(j == min(m.len() as int, MAX_ENDPOINTS - nq));
        let mut schemas: Vec<Schema> = Vec::new();
        let mut t: usize = 0;
        while t < types.len()
            invariant
                t <= types@.len(),
                schemas@.len() == t,
                forall|k: int| 0 <= k < t ==> #[trigger] schemas@[k]@ == type_schema(types@[k]@),
            decreases types@.len() - t,
        {
            let s = type_schema_of(&types[t]);
            schemas.push(s);
            t = t + 1;
        }
        let spec = ApiSpec {
            name: owned("GraphQL API"),
            version: None,
            description: owned("GraphQL schema"),
            base_url: None,
            spec_format: SpecFormat::GraphQl,
            auth_methods: vec![AuthMethod::NoAuth],
            endpoints,
            schemas,
        };
        proof {
            let ev = crate::ir::endpoints_view(spec.endpoints@);
            let expected = graphql_endpoints(content@);
            assert(q == extracted_type_fields(content@, "Query"@));
            assert(m == extracted_type_fields(content@, "Mutation"@));
            let qs = q.take(nq as int).map_values(|f: FieldDefView| query_endpoint(f));
            let ms = m.take(j as int).map_values(|f: FieldDefView| mutation_endpoint(f));
            assert(expected == qs + ms);
            assert forall|k: int| 0 <= k < ev.len() implies ev[k] == expected[k] by {
                if k < nq {
                    assert(q[k] == query_fields@[k]@);
                    assert(qs[k] == query_endpoint(q[k]));
                } else {
                    assert(m[k - nq] == mutation_fields@[k - nq]@);
                    assert(ms[k - nq] == mutation_endpoint(m[k - nq]));
                    assert(endpoints@[nq + (k - nq)]@ == mutation_endpoint(mutation_fields@[k - nq]@));
                }
            }
            assert(ev =~= expected);
        }
        assert(crate::ir::schemas_view(spec.schemas@) =~= parsed_type_definitions(
            content@,
        ).map_values(|t: TypeDefView| type_schema(t)));
        assert(crate::ir::auths_view(spec.auth_methods@) =~= seq![AuthMethodView::NoAuth]);
        spec
    }
}

} // verus!
