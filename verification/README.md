# apiguard

Generates guides for AI agents from API specifications (OpenAPI 3, Swagger 2,
GraphQL SDL, gRPC proto), with the guide writer, the parsers and the input
checks proved correct with Verus.

## Layout

- `src/` — the verified library.
  - `ir.rs` — the intermediate representation of an API and its views.
  - `generator.rs` — the Markdown guide; `generate_guide` returns exactly
    `guide_text` of the spec.
  - `parser.rs` and `parser/` — format detection, the parser registry, and
    one parser per format. GraphQL and proto parsing go through the `regex`
    crate (`pattern.rs`); OpenAPI text is decoded by `openapiv3` with
    `serde_json`/`serde_yml` (`parser/openapi3/decode.rs`); Swagger documents
    arrive decoded into the library's own document model.
  - `security.rs` — JSON nesting limit, Markdown and shell escaping,
    description truncation, path and size checks.
  - `text.rs` — string helpers with UTF-8 byte-length reasoning.
- `tests/` — tests of the library.
- `app/` — the command-line program: file I/O, Swagger JSON/YAML decoding,
  and the JSON IR output.
