//! The spec parsers and the registry that picks one.
pub mod graphql;
pub mod openapi3;
pub mod proto;
pub mod swagger2;

use crate::error::GuardError;
use crate::ir::{ApiSpec, ApiSpecView, SchemaView, SpecFormat};
use crate::parser::graphql::{graphql_detected, graphql_spec, GraphQlParser};
use crate::parser::openapi3::{
    openapi3_decode_error, openapi3_detected, openapi3_spec, openapi3_text_document, OpenApi3Parser,
    OpenApiDocument,
};
use crate::parser::proto::{proto_detected, proto_spec, ProtoParser};
use crate::parser::swagger2::{swagger_detected, swagger_spec, Swagger2Parser, SwaggerSpec};
use crate::security::{MAX_ENDPOINTS, MAX_SCHEMA_PROPERTIES};
use crate::text::{ends_with_char, owned, str_eq};
use vstd::prelude::*;

verus! {

/// What a parser reads: the text of the spec for the text formats, or the
/// document decoded from the JSON or YAML text for the document formats.
pub enum SpecSource {
    Text(String),
    OpenApi3(OpenApiDocument),
    Swagger2(SwaggerSpec),
}

/// Trait that each API spec parser implements.
pub trait ApiParser {
    /// Human-readable name of this parser.
    fn name(&self) -> &'static str;

    /// The spec format this parser handles.
    fn format(&self) -> SpecFormat;

    /// Returns true if the content appears to be this spec format.
    fn detect(&self, content: &str) -> bool;

    /// Parse the spec into an `ApiSpec`.
    fn parse(&self, source: &SpecSource) -> Result<ApiSpec, GuardError>;
}

/// Whether the detector of `format` accepts `content`.
pub open spec fn detected(format: SpecFormat, content: Seq<char>) -> bool {
    match format {
        SpecFormat::OpenApi3 => openapi3_detected(content),
        SpecFormat::Swagger2 => swagger_detected(content),
        SpecFormat::GraphQl => graphql_detected(content),
        SpecFormat::GrpcProto => proto_detected(content),
    }
}

/// The API description the parser of `format` makes of `source`, or `None`
/// when the source is not of the kind that parser reads.
pub open spec fn parsed_source(format: SpecFormat, source: SpecSource) -> Option<ApiSpecView> {
    match (format, source) {
        (SpecFormat::OpenApi3, SpecSource::OpenApi3(doc)) => Some(openapi3_spec(doc)),
        (SpecFormat::OpenApi3, SpecSource::Text(t)) => match openapi3_text_document(t@) {
            Some(doc) => Some(openapi3_spec(doc)),
            None => None,
        },
        (SpecFormat::Swagger2, SpecSource::Swagger2(doc)) => Some(swagger_spec(doc)),
        (SpecFormat::GraphQl, SpecSource::Text(t)) => Some(graphql_spec(t@)),
        (SpecFormat::GrpcProto, SpecSource::Text(t)) => Some(proto_spec(t@)),
        _ => None,
    }
}

/// The error a parser gives for a source it makes nothing of: the decode
/// error for OpenAPI text that does not decode, else a source mismatch.
pub open spec fn parse_refusal(format: SpecFormat, source: SpecSource) -> GuardError {
    match (format, source) {
        (SpecFormat::OpenApi3, SpecSource::Text(t)) => openapi3_decode_error(t@),
        _ => GuardError::SourceMismatch(format),
    }
}

/// The result a parser owes for `source`: the parsed description, or the
/// refusal for the format and source.
pub open spec fn parse_outcome(
    format: SpecFormat,
    source: SpecSource,
    r: Result<ApiSpec, GuardError>,
) -> bool {
    match parsed_source(format, source) {
        Some(v) => r matches Ok(s) && s@ == v,
        None => r matches Err(e) && e == parse_refusal(format, source),
    }
}

/// The built-in parsers, in the order auto-detection tries them.
pub open spec fn builtin_formats() -> Seq<SpecFormat> {
    seq![SpecFormat::OpenApi3, SpecFormat::Swagger2, SpecFormat::GraphQl, SpecFormat::GrpcProto]
}

/// The first format of `formats` whose detector accepts `content`.
pub open spec fn first_detected(formats: Seq<SpecFormat>, content: Seq<char>) -> Option<SpecFormat>
    decreases formats.len(),
{
    if formats.len() == 0 {
        None
    } else if detected(formats[0], content) {
        Some(formats[0])
    } else {
        first_detected(formats.drop_first(), content)
    }
}

/// Whether an API description keeps the processing limits: at most
/// `MAX_ENDPOINTS` endpoints and at most `MAX_SCHEMA_PROPERTIES` properties
/// in each schema.
pub open spec fn within_limits(v: ApiSpecView) -> bool {
    &&& v.endpoints.len() <= MAX_ENDPOINTS
    &&& forall|i: int|
        0 <= i < v.schemas.len() ==> (#[trigger] v.schemas[i]).properties.len()
            <= MAX_SCHEMA_PROPERTIES
}

/// Every parser keeps the processing limits: whatever the source, the API
/// description it makes has at most `MAX_ENDPOINTS` endpoints and at most
/// `MAX_SCHEMA_PROPERTIES` properties per schema.
pub proof fn lemma_parsers_keep_limits(format: SpecFormat, source: SpecSource)
    ensures
        parsed_source(format, source) matches Some(v) ==> within_limits(v),
{
    match (format, source) {
        (SpecFormat::GraphQl, SpecSource::Text(t)) => {
            let v = graphql_spec(t@);
            assert forall|i: int| 0 <= i < v.schemas.len() implies (#[trigger] v.schemas[i]).properties.len()
                <= MAX_SCHEMA_PROPERTIES by {
                let td = crate::parser::graphql::parsed_type_definitions(t@)[i];
                assert(v.schemas[i] == crate::parser::graphql::type_schema(td));
            }
        },
        (SpecFormat::GrpcProto, SpecSource::Text(t)) => {
            let v = proto_spec(t@);
            assert forall|i: int| 0 <= i < v.schemas.len() implies (#[trigger] v.schemas[i]).properties.len()
                <= MAX_SCHEMA_PROPERTIES by {
                let m = crate::parser::proto::parsed_messages(t@)[i];
                assert(v.schemas[i] == crate::parser::proto::message_schema(m));
            }
        },
        (SpecFormat::Swagger2, SpecSource::Swagger2(doc)) => {
            let v = swagger_spec(doc);
            assert forall|i: int| 0 <= i < v.schemas.len() implies (#[trigger] v.schemas[i]).properties.len()
                <= MAX_SCHEMA_PROPERTIES by {
                assert(v.schemas[i] == crate::parser::swagger2::definition_schema(doc.definitions@[i]));
            }
        },
        (SpecFormat::OpenApi3, SpecSource::OpenApi3(doc)) => {
            lemma_component_schemas_capped(doc);
        },
        (SpecFormat::OpenApi3, SpecSource::Text(t)) => {
            if let Some(doc) = openapi3_text_document(t@) {
                lemma_component_schemas_capped(doc);
            }
        },
        _ => {},
    }
}

proof fn lemma_component_schemas_capped(doc: OpenApiDocument)
    ensures
        forall|i: int|
            0 <= i < openapi3::document_schemas(doc).len() ==> (#[trigger] openapi3::document_schemas(
                doc,
            )[i]).properties.len() <= MAX_SCHEMA_PROPERTIES,
{
    match doc.components {
        Some(c) => lemma_schema_entries_capped(c.schemas@),
        None => {},
    }
}

proof fn lemma_schema_entries_capped(entries: Seq<(String, openapi3::RefOr<openapi3::SchemaObject>)>)
    ensures
        forall|i: int|
            0 <= i < openapi3::component_schemas(entries).len() ==> (
            #[trigger] openapi3::component_schemas(entries)[i]).properties.len()
                <= MAX_SCHEMA_PROPERTIES,
    decreases entries.len(),
{
    if entries.len() > 0 {
        lemma_schema_entries_capped(entries.drop_last());
    }
}

/// Each property of the schema is marked required exactly when the schema
/// lists its name among the required fields.
pub open spec fn schema_required_agrees(sc: SchemaView) -> bool {
    forall|k: int|
        0 <= k < sc.properties.len() ==> ((#[trigger] sc.properties[k]).required
            <==> sc.required_fields.contains(sc.properties[k].name))
}

/// Every schema of the description marks its properties required as its
/// required fields say.
pub open spec fn required_agrees(v: ApiSpecView) -> bool {
    forall|i: int| 0 <= i < v.schemas.len() ==> schema_required_agrees(#[trigger] v.schemas[i])
}

/// No schema property name ends in `!`.
pub open spec fn no_bang_property_names(v: ApiSpecView) -> bool {
    forall|i: int, k: int|
        0 <= i < v.schemas.len() && 0 <= k < v.schemas[i].properties.len() ==> !ends_with_char(
            #[trigger] v.schemas[i].properties[k].name,
            '!',
        )
}

/// Every parser marks a schema property required exactly when the schema's
/// required fields name it. For GraphQL, whose properties are required when
/// their name ends in `!` and whose schemas list no required fields, this
/// holds when no property name ends in `!`.
pub proof fn lemma_parsers_mark_required(format: SpecFormat, source: SpecSource)
    ensures
        parsed_source(format, source) matches Some(v) ==> (format != SpecFormat::GraphQl
            || no_bang_property_names(v)) ==> required_agrees(v),
{
    match (format, source) {
        (SpecFormat::GraphQl, SpecSource::Text(t)) => {
            let v = graphql_spec(t@);
            if no_bang_property_names(v) {
                assert forall|i: int| 0 <= i < v.schemas.len() implies schema_required_agrees(
                    #[trigger] v.schemas[i],
                ) by {
                    let sc = v.schemas[i];
                    assert forall|k: int| 0 <= k < sc.properties.len() implies ((
                    #[trigger] sc.properties[k]).required <==> sc.required_fields.contains(
                        sc.properties[k].name,
                    )) by {
                        assert(!ends_with_char(v.schemas[i].properties[k].name, '!'));
                    }
                }
            }
        },
        (SpecFormat::GrpcProto, SpecSource::Text(t)) => {
            let v = proto_spec(t@);
            assert forall|i: int| 0 <= i < v.schemas.len() implies schema_required_agrees(
                #[trigger] v.schemas[i],
            ) by {
                let m = crate::parser::proto::parsed_messages(t@)[i];
                let sc = v.schemas[i];
                assert(sc == crate::parser::proto::message_schema(m));
                assert forall|k: int| 0 <= k < sc.properties.len() implies ((
                #[trigger] sc.properties[k]).required <==> sc.required_fields.contains(
                    sc.properties[k].name,
                )) by {
                    assert(sc.required_fields[k] == sc.properties[k].name);
                }
            }
        },
        (SpecFormat::Swagger2, SpecSource::Swagger2(doc)) => {
            let v = swagger_spec(doc);
            assert forall|i: int| 0 <= i < v.schemas.len() implies schema_required_agrees(
                #[trigger] v.schemas[i],
            ) by {
                assert(v.schemas[i] == crate::parser::swagger2::definition_schema(doc.definitions@[i]));
            }
        },
        (SpecFormat::OpenApi3, SpecSource::OpenApi3(doc)) => {
            lemma_document_schemas_required(doc);
        },
        (SpecFormat::OpenApi3, SpecSource::Text(t)) => {
            if let Some(doc) = openapi3_text_document(t@) {
                lemma_document_schemas_required(doc);
            }
        },
        _ => {},
    }
}

proof fn lemma_document_schemas_required(doc: OpenApiDocument)
    ensures
        required_agrees(openapi3_spec(doc)),
{
    match doc.components {
        Some(c) => lemma_component_schemas_required(c.schemas@),
        None => {},
    }
}

proof fn lemma_component_schemas_required(
    entries: Seq<(String, openapi3::RefOr<openapi3::SchemaObject>)>,
)
    ensures
        forall|i: int|
            0 <= i < openapi3::component_schemas(entries).len() ==> schema_required_agrees(
                #[trigger] openapi3::component_schemas(entries)[i],
            ),
    decreases entries.len(),
{
    if entries.len() > 0 {
        lemma_component_schemas_required(entries.drop_last());
        let prev = openapi3::component_schemas(entries.drop_last());
        let all = openapi3::component_schemas(entries);
        match entries.last().1 {
            openapi3::RefOr::Item(sobj) => {
                let sc = openapi3::converted_schema(entries.last().0@, sobj);
                assert(schema_required_agrees(sc));
                assert(all == prev.push(sc));
                assert forall|i: int| 0 <= i < all.len() implies schema_required_agrees(
                    #[trigger] all[i],
                ) by {
                    if i < prev.len() {
                        assert(all[i] == prev[i]);
                    }
                }
            },
            openapi3::RefOr::Reference => {},
        }
    }
}

/// The name of the parser for `format`.
pub open spec fn parser_name_text(format: SpecFormat) -> Seq<char> {
    match format {
        SpecFormat::OpenApi3 => "OpenAPI 3.x"@,
        SpecFormat::Swagger2 => "Swagger 2.0"@,
        SpecFormat::GraphQl => "GraphQL"@,
        SpecFormat::GrpcProto => "gRPC Proto"@,
    }
}

/// The name of the parser for `format`.
pub fn parser_name(format: SpecFormat) -> (r: &'static str)
    ensures
        r@ == parser_name_text(format),
{
    match format {
        SpecFormat::OpenApi3 => OpenApi3Parser.name(),
        SpecFormat::Swagger2 => Swagger2Parser.name(),
        SpecFormat::GraphQl => GraphQlParser.name(),
        SpecFormat::GrpcProto => ProtoParser.name(),
    }
}

/// Registry of all available parsers, used for auto-detection.
pub struct ParserRegistry {
    parsers: Vec<SpecFormat>,
}

fn detect_with(format: SpecFormat, content: &str) -> (r: bool)
    ensures
        r == detected(format, content@),
{
    match format {
        SpecFormat::OpenApi3 => OpenApi3Parser.detect(content),
        SpecFormat::Swagger2 => Swagger2Parser.detect(content),
        SpecFormat::GraphQl => GraphQlParser.detect(content),
        SpecFormat::GrpcProto => ProtoParser.detect(content),
    }
}

fn parse_with(format: SpecFormat, source: &SpecSource) -> (r: Result<ApiSpec, GuardError>)
    ensures
        parse_outcome(format, *source, r),
{
    match format {
        SpecFormat::OpenApi3 => OpenApi3Parser.parse(source),
        SpecFormat::Swagger2 => Swagger2Parser.parse(source),
        SpecFormat::GraphQl => GraphQlParser.parse(source),
        SpecFormat::GrpcProto => ProtoParser.parse(source),
    }
}

impl ParserRegistry {
    /// The formats of the registered parsers, in order.
    pub closed spec fn formats(&self) -> Seq<SpecFormat> {
        self.parsers@
    }

    /// Create a registry with all built-in parsers.
    pub fn new() -> (r: Self)
        ensures
            r.formats() == builtin_formats(),
    {
        let parsers = vec![
            SpecFormat::OpenApi3,
            SpecFormat::Swagger2,
            SpecFormat::GraphQl,
            SpecFormat::GrpcProto,
        ];
        let r = ParserRegistry { parsers };
        assert(r.formats() =~= builtin_formats());
        r
    }

    /// The format of the first parser, in registry order, that detects the
    /// content; `None` when no parser does.
    pub fn detect_format(&self, content: &str) -> (r: Option<SpecFormat>)
        ensures
            r == first_detected(self.formats(), content@),
    {
        let ghost fs = self.formats();
        let mut i: usize = 0;
        assert(fs.skip(0) =~= fs);
        while i < self.parsers.len()
            invariant
                i <= fs.len(),
                fs == self.parsers@,
                first_detected(fs, content@) == first_detected(fs.skip(i as int), content@),
            decreases fs.len() - i,
        {
            assert(fs.skip(i as int).drop_first() =~= fs.skip(i + 1));
            assert(fs.skip(i as int)[0] == fs[i as int]);
            if detect_with(self.parsers[i], content) {
                return Some(self.parsers[i]);
            }
            i = i + 1;
        }
        assert(fs.skip(i as int) =~= Seq::<SpecFormat>::empty());
        None
    }

    /// Parse using a specific format: the first registered parser for the
    /// format parses the source.
    pub fn parse_with_format(&self, format: &SpecFormat, source: &SpecSource) -> (r: Result<
        ApiSpec,
        GuardError,
    >)
        ensures
            self.formats().contains(*format) ==> parse_outcome(*format, *source, r),
            !self.formats().contains(*format) ==> (r matches Err(GuardError::NoParser(f)) && f
                == *format),
    {
        let mut i: usize = 0;
        while i < self.parsers.len()
            invariant
                i <= self.parsers@.len(),
                forall|k: int| 0 <= k < i ==> self.parsers@[k] != *format,
            decreases self.parsers@.len() - i,
        {
            if self.parsers[i] == *format {
                return parse_with(*format, source);
            }
            i = i + 1;
        }
        Err(GuardError::NoParser(*format))
    }
}

/// A format that auto-detection picks always has a registered parser, so
/// parsing by it never fails for want of one.
pub proof fn lemma_detected_format_registered(formats: Seq<SpecFormat>, content: Seq<char>)
    ensures
        first_detected(formats, content) matches Some(f) ==> formats.contains(f),
    decreases formats.len(),
{
    if formats.len() > 0 && !detected(formats[0], content) {
        lemma_detected_format_registered(formats.drop_first(), content);
        if let Some(f) = first_detected(formats.drop_first(), content) {
            let k = choose|k: int| 0 <= k < formats.drop_first().len() && formats.drop_first()[k] == f;
            assert(formats[k + 1] == f);
        }
    } else if formats.len() > 0 {
        assert(formats[0] == formats[0]);
    }
}

impl Default for ParserRegistry {
    fn default() -> (r: Self)
        ensures
            r.formats() == builtin_formats(),
    {
        Self::new()
    }
}

// ---------------------------------------------------------------------------
// Format names
// ---------------------------------------------------------------------------
/// What `str::to_lowercase` makes of `text` (Unicode lower case).
pub uninterp spec fn lowercase(text: Seq<char>) -> Seq<char>;

/// `str::to_lowercase`: the Unicode lower case of the text. The contract
/// claims only that the result is the named function of the text.
#[verifier::external_body]
fn to_lowercase(text: &str) -> (r: String)
    ensures
        r@ == lowercase(text@),
{
    text.to_lowercase()
}

/// The spec format a lower-case `--format` name names.
pub open spec fn format_named(lower: Seq<char>) -> Option<SpecFormat> {
    if lower == "openapi3"@ || lower == "openapi"@ {
        Some(SpecFormat::OpenApi3)
    } else if lower == "swagger2"@ || lower == "swagger"@ {
        Some(SpecFormat::Swagger2)
    } else if lower == "graphql"@ || lower == "gql"@ {
        Some(SpecFormat::GraphQl)
    } else if lower == "grpc"@ || lower == "proto"@ || lower == "protobuf"@ {
        Some(SpecFormat::GrpcProto)
    } else {
        None
    }
}

/// The spec format a lower-cased format name names, or the unknown-format
/// error holding the name.
pub fn spec_format_from_lowercase(lower: &str) -> (r: Result<SpecFormat, GuardError>)
    ensures
        match format_named(lower@) {
            Some(f) => r == Ok::<SpecFormat, GuardError>(f),
            None => r matches Err(GuardError::UnknownSpecFormat(n)) && n@ == lower@,
        },
{
    if str_eq(lower, "openapi3") || str_eq(lower, "openapi") {
        Ok(SpecFormat::OpenApi3)
    } else if str_eq(lower, "swagger2") || str_eq(lower, "swagger") {
        Ok(SpecFormat::Swagger2)
    } else if str_eq(lower, "graphql") || str_eq(lower, "gql") {
        Ok(SpecFormat::GraphQl)
    } else if str_eq(lower, "grpc") || str_eq(lower, "proto") || str_eq(lower, "protobuf") {
        Ok(SpecFormat::GrpcProto)
    } else {
        Err(GuardError::UnknownSpecFormat(owned(lower)))
    }
}

/// The spec format a `--format` name names, in any case.
pub fn parse_spec_format(name: &str) -> (r: Result<SpecFormat, GuardError>)
    ensures
        match format_named(lowercase(name@)) {
            Some(f) => r == Ok::<SpecFormat, GuardError>(f),
            None => r matches Err(GuardError::UnknownSpecFormat(n)) && n@ == lowercase(name@),
        },
{
    let lower = to_lowercase(name);
    spec_format_from_lowercase(lower.as_str())
}

} // verus!
