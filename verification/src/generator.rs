//! The markdown guide for AI agents, generated from an [`ApiSpec`].
//!
//! Each section has a spec function giving its exact text; the writer of
//! each section appends exactly that text.
use crate::error::GuardError;
use crate::ir::{
    ApiSpec, ApiSpecView, AuthMethod, AuthMethodView, Endpoint, EndpointView, HttpMethod,
    Parameter, ParameterLocation, ParameterView, RequestBody, Response, ResponseView, Schema,
    SchemaProperty, SchemaPropertyView, SchemaView,
};
use crate::security::{
    escape_markdown, escape_markdown_text, escape_shell_example, escape_shell_text,
    safe_description, safe_description_text, cut_chars, cut_index, MAX_DESCRIPTION_LENGTH,
};
use crate::text::{
    all_ascii, byte_len, byte_len_upto, chars_of, join_text,
    lemma_ascii_byte_len, lemma_byte_len_concat,
    owned, put, put_joined, put_spaces, spaces, str_eq, string_from_chars, strings_view,
};
use vstd::prelude::*;
use vstd::string::*;

verus! {

// ---------------------------------------------------------------------------
// Sequences of pieces
// ---------------------------------------------------------------------------
/// The texts `f(x)` of the items `x` of `s`, one after another.
pub open spec fn concat_map<T>(s: Seq<T>, f: spec_fn(T) -> Seq<char>) -> Seq<char>
    decreases s.len(),
{
    if s.len() == 0 {
        Seq::empty()
    } else {
        concat_map(s.drop_last(), f) + f(s.last())
    }
}

pub proof fn lemma_concat_map_step<T>(s: Seq<T>, i: int, f: spec_fn(T) -> Seq<char>)
    requires
        0 <= i < s.len(),
    ensures
        concat_map(s.take(i + 1), f) == concat_map(s.take(i), f) + f(s[i]),
{
    assert(s.take(i + 1).drop_last() =~= s.take(i));
}

pub proof fn lemma_concat_map_all<T>(s: Seq<T>, f: spec_fn(T) -> Seq<char>)
    ensures
        concat_map(s.take(s.len() as int), f) == concat_map(s, f),
{
    assert(s.take(s.len() as int) =~= s);
}

pub open spec fn yes_no(b: bool) -> Seq<char> {
    if b {
        "yes"@
    } else {
        "no"@
    }
}

fn put_yes_no(out: &mut String, b: bool)
    ensures
        final(out)@ == old(out)@ + yes_no(b),
{
    if b {
        put(out, "yes");
    } else {
        put(out, "no");
    }
}

// ---------------------------------------------------------------------------
// Header
// ---------------------------------------------------------------------------
pub open spec fn header_text(s: ApiSpecView) -> Seq<char> {
    "# "@ + escape_markdown_text(s.name) + " for AI Agents\n"@ + "\n"@ + (if s.description.len()
        > 0 {
        safe_description_text(s.description, MAX_DESCRIPTION_LENGTH as int) + "\n"@ + "\n"@
    } else {
        Seq::empty()
    }) + match s.base_url {
        Some(u) => "**Base URL**: `"@ + u + "`\n"@ + "\n"@,
        None => Seq::empty(),
    }
}

fn write_header(out: &mut String, spec: &ApiSpec)
    ensures
        final(out)@ == old(out)@ + header_text(spec@),
{
    let name = escape_markdown(spec.name.as_str());
    put(out, "# ");
    put(out, name.as_str());
    put(out, " for AI Agents\n");
    put(out, "\n");
    let ghost mid = out@;
    if !spec.description.as_str().is_empty() {
        let d = safe_description(spec.description.as_str(), MAX_DESCRIPTION_LENGTH);
        put(out, d.as_str());
        put(out, "\n");
        put(out, "\n");
    }
    let ghost mid2 = out@;
    if let Some(base_url) = &spec.base_url {
        put(out, "**Base URL**: `");
        put(out, base_url.as_str());
        put(out, "`\n");
        put(out, "\n");
    }
    assert(out@ =~= old(out)@ + header_text(spec@));
}

// ---------------------------------------------------------------------------
// Authentication
// ---------------------------------------------------------------------------
pub open spec fn auth_item_text(a: AuthMethodView) -> Seq<char> {
    (match a {
        AuthMethodView::Bearer => "**Bearer Token**\n"@ + "```bash\n"@
            + "curl -H \"Authorization: Bearer <token>\" <url>\n"@ + "```\n"@,
        AuthMethodView::ApiKey { location, name } => {
            let safe_name = escape_shell_text(name);
            "**API Key** ("@ + location + ": `"@ + safe_name + "`)\n"@ + "```bash\n"@ + (if location
                == "header"@ {
                "curl -H \""@ + safe_name + ": <api-key>\" <url>\n"@
            } else {
                "curl \"<url>?"@ + safe_name + "=<api-key>\"\n"@
            }) + "```\n"@
        },
        AuthMethodView::Basic => "**Basic Auth**\n"@ + "```bash\n"@
            + "curl -u username:password <url>\n"@ + "```\n"@,
        AuthMethodView::OAuth2 { flows } => "**OAuth2** (flows: "@ + join_text(flows, ", "@)
            + ")\n"@,
        AuthMethodView::NoAuth => "No authentication required.\n"@,
    }) + "\n"@
}

pub open spec fn auth_section_text(s: ApiSpecView) -> Seq<char> {
    "## Authentication\n"@ + "\n"@ + concat_map(s.auth_methods, |a: AuthMethodView| auth_item_text(a))
}

fn write_auth_item(out: &mut String, auth: &AuthMethod)
    ensures
        final(out)@ == old(out)@ + auth_item_text(auth@),
{
    match auth {
        AuthMethod::Bearer => {
            put(out, "**Bearer Token**\n");
            put(out, "```bash\n");
            put(out, "curl -H \"Authorization: Bearer <token>\" <url>\n");
            put(out, "```\n");
        },
        AuthMethod::ApiKey { location, name } => {
            let safe_name = escape_shell_example(name.as_str());
            put(out, "**API Key** (");
            put(out, location.as_str());
            put(out, ": `");
            put(out, safe_name.as_str());
            put(out, "`)\n");
            put(out, "```bash\n");
            if str_eq(location.as_str(), "header") {
                put(out, "curl -H \"");
                put(out, safe_name.as_str());
                put(out, ": <api-key>\" <url>\n");
            } else {
                put(out, "curl \"<url>?");
                put(out, safe_name.as_str());
                put(out, "=<api-key>\"\n");
            }
            put(out, "```\n");
        },
        AuthMethod::Basic => {
            put(out, "**Basic Auth**\n");
            put(out, "```bash\n");
            put(out, "curl -u username:password <url>\n");
            put(out, "```\n");
        },
        AuthMethod::OAuth2 { flows } => {
            put(out, "**OAuth2** (flows: ");
            put_joined(out, flows, ", ");
            put(out, ")\n");
        },
        AuthMethod::NoAuth => {
            put(out, "No authentication required.\n");
        },
    }
    put(out, "\n");
    assert(out@ =~= old(out)@ + auth_item_text(auth@));
}

fn write_auth_section(out: &mut String, spec: &ApiSpec)
    ensures
        final(out)@ == old(out)@ + auth_section_text(spec@),
{
    put(out, "## Authentication\n");
    put(out, "\n");
    let ghost base = out@;
    let ghost f = |a: AuthMethodView| auth_item_text(a);
    let ghost items = spec@.auth_methods;
    let mut i: usize = 0;
    while i < spec.auth_methods.len()
        invariant
            i <= spec.auth_methods@.len(),
            items == spec@.auth_methods,
            items.len() == spec.auth_methods@.len(),
            f == (|a: AuthMethodView| auth_item_text(a)),
            out@ == base + concat_map(items.take(i as int), f),
        decreases spec.auth_methods@.len() - i,
    {
        proof {
            lemma_concat_map_step(items, i as int, f);
            assert(items[i as int] == spec.auth_methods@[i as int]@);
        }
        write_auth_item(out, &spec.auth_methods[i]);
        assert(out@ =~= base + concat_map(items.take(i + 1), f));
        i = i + 1;
    }
    proof {
        lemma_concat_map_all(items, f);
    }
    assert(out@ =~= old(out)@ + auth_section_text(spec@));
}

// ---------------------------------------------------------------------------
// Tags
// ---------------------------------------------------------------------------
/// `acc` extended by the strings of `ts` it does not hold yet, in order.
pub open spec fn add_new_tags(acc: Seq<Seq<char>>, ts: Seq<Seq<char>>) -> Seq<Seq<char>>
    decreases ts.len(),
{
    if ts.len() == 0 {
        acc
    } else {
        let a = add_new_tags(acc, ts.drop_last());
        if a.contains(ts.last()) {
            a
        } else {
            a.push(ts.last())
        }
    }
}

/// The tags of the endpoints, each once, in order of first appearance.
pub open spec fn collected_tags(eps: Seq<EndpointView>) -> Seq<Seq<char>>
    decreases eps.len(),
{
    if eps.len() == 0 {
        Seq::empty()
    } else {
        add_new_tags(collected_tags(eps.drop_last()), eps.last().tags)
    }
}

/// Whether some endpoint of `eps` carries `tag`.
pub open spec fn some_endpoint_tagged(eps: Seq<EndpointView>, tag: Seq<char>) -> bool {
    exists|i: int| 0 <= i < eps.len() && (#[trigger] eps[i]).tags.contains(tag)
}

proof fn lemma_add_new_tags(acc: Seq<Seq<char>>, ts: Seq<Seq<char>>)
    requires
        acc.no_duplicates(),
    ensures
        add_new_tags(acc, ts).no_duplicates(),
        forall|t: Seq<char>|
            #[trigger] add_new_tags(acc, ts).contains(t) <==> (acc.contains(t) || ts.contains(t)),
    decreases ts.len(),
{
    if ts.len() > 0 {
        lemma_add_new_tags(acc, ts.drop_last());
        let a = add_new_tags(acc, ts.drop_last());
        assert forall|t: Seq<char>| #[trigger] ts.contains(t) <==> (ts.drop_last().contains(t) || t
            == ts.last()) by {
            if ts.contains(t) {
                let k = choose|k: int| 0 <= k < ts.len() && ts[k] == t;
                if k < ts.len() - 1 {
                    assert(ts.drop_last()[k] == t);
                }
            }
            if ts.drop_last().contains(t) {
                let k = choose|k: int| 0 <= k < ts.drop_last().len() && ts.drop_last()[k] == t;
                assert(ts[k] == t);
            }
            if t == ts.last() {
                assert(ts[ts.len() - 1] == t);
            }
        }
        if !a.contains(ts.last()) {
            let b = a.push(ts.last());
            assert forall|i: int, j: int| 0 <= i < b.len() && 0 <= j < b.len() && i != j implies b[i]
                != b[j] by {
                if i == a.len() && j < a.len() {
                    assert(a.contains(a[j]));
                } else if j == a.len() && i < a.len() {
                    assert(a.contains(a[i]));
                }
            }
            assert forall|t: Seq<char>| #[trigger] b.contains(t) <==> (a.contains(t) || t
                == ts.last()) by {
                if b.contains(t) {
                    let k = choose|k: int| 0 <= k < b.len() && b[k] == t;
                    if k < a.len() {
                        assert(a[k] == t);
                    }
                }
                if a.contains(t) {
                    let k = choose|k: int| 0 <= k < a.len() && a[k] == t;
                    assert(b[k] == t);
                }
                if t == ts.last() {
                    assert(b[a.len() as int] == t);
                }
            }
        }
    }
}

/// The collected tags hold no tag twice, and hold exactly the tags some
/// endpoint carries.
pub proof fn lemma_collected_tags(eps: Seq<EndpointView>)
    ensures
        collected_tags(eps).no_duplicates(),
        forall|t: Seq<char>| #[trigger]
            collected_tags(eps).contains(t) <==> some_endpoint_tagged(eps, t),
    decreases eps.len(),
{
    if eps.len() == 0 {
        assert(collected_tags(eps) =~= Seq::<Seq<char>>::empty());
    } else {
        lemma_collected_tags(eps.drop_last());
        lemma_add_new_tags(collected_tags(eps.drop_last()), eps.last().tags);
        assert forall|t: Seq<char>| some_endpoint_tagged(eps, t) implies #[trigger] collected_tags(
            eps,
        ).contains(t) by {
            let i = choose|i: int| 0 <= i < eps.len() && (#[trigger] eps[i]).tags.contains(t);
            if i < eps.len() - 1 {
                assert(eps.drop_last()[i] == eps[i]);
                assert(some_endpoint_tagged(eps.drop_last(), t));
            }
        }
        assert forall|t: Seq<char>| #[trigger] collected_tags(eps).contains(t) implies some_endpoint_tagged(
            eps,
            t,
        ) by {
            if collected_tags(eps.drop_last()).contains(t) {
                let i = choose|i: int|
                    0 <= i < eps.drop_last().len() && (#[trigger] eps.drop_last()[i]).tags.contains(t);
                assert(eps[i] == eps.drop_last()[i]);
            } else {
                assert(eps[eps.len() - 1].tags.contains(t));
            }
        }
    }
}

fn seq_contains_string(v: &Vec<String>, s: &String) -> (r: bool)
    ensures
        r == strings_view(v@).contains(s@),
{
    let mut i: usize = 0;
    while i < v.len()
        invariant
            i <= v@.len(),
            forall|k: int| 0 <= k < i ==> v@[k]@ != s@,
        decreases v@.len() - i,
    {
        if str_eq(v[i].as_str(), s.as_str()) {
            assert(strings_view(v@)[i as int] == s@);
            return true;
        }
        i = i + 1;
    }
    assert forall|k: int| 0 <= k < strings_view(v@).len() implies strings_view(v@)[k] != s@ by {
        assert(strings_view(v@)[k] == v@[k]@);
    }
    false
}

/// Collects the tags of the endpoints, each once, in order of first appearance.
pub fn collect_tags(spec: &ApiSpec) -> (tags: Vec<String>)
    ensures
        strings_view(tags@) == collected_tags(spec@.endpoints),
        strings_view(tags@).no_duplicates(),
        forall|t: Seq<char>| #[trigger]
            strings_view(tags@).contains(t) <==> some_endpoint_tagged(spec@.endpoints, t),
{
    let mut tags: Vec<String> = Vec::new();
    let ghost eps = spec@.endpoints;
    let mut i: usize = 0;
    while i < spec.endpoints.len()
        invariant
            i <= spec.endpoints@.len(),
            eps == spec@.endpoints,
            eps.len() == spec.endpoints@.len(),
            strings_view(tags@) == collected_tags(eps.take(i as int)),
        decreases spec.endpoints@.len() - i,
    {
        let ep = &spec.endpoints[i];
        let ghost ts = ep@.tags;
        let ghost before = strings_view(tags@);
        let mut k: usize = 0;
        while k < ep.tags.len()
            invariant
                k <= ep.tags@.len(),
                ts == strings_view(ep.tags@),
                strings_view(tags@) == add_new_tags(before, ts.take(k as int)),
            decreases ep.tags@.len() - k,
        {
            assert(ts.take(k + 1).drop_last() =~= ts.take(k as int));
            let t = &ep.tags[k];
            if !seq_contains_string(&tags, t) {
                let c = t.clone();
                tags.push(c);
                assert(strings_view(tags@) =~= add_new_tags(before, ts.take(k as int)).push(t@));
            }
            k = k + 1;
        }
        assert(ts.take(ts.len() as int) =~= ts);
        assert(eps.take(i + 1).drop_last() =~= eps.take(i as int));
        assert(eps[i as int] == ep@);
        i = i + 1;
    }
    assert(eps.take(eps.len() as int) =~= eps);
    proof {
        lemma_collected_tags(eps);
    }
    tags
}

// ---------------------------------------------------------------------------
// Quick reference
// ---------------------------------------------------------------------------
/// The method name padded with spaces to six characters.
pub open spec fn padded_method(m: HttpMethod) -> Seq<char> {
    m.text() + spaces(if m.text().len() < 6 {
        (6 - m.text().len()) as nat
    } else {
        0
    })
}

/// Spaces that bring the method and the URL to fifty bytes.
pub open spec fn quick_padding(m: HttpMethod, url: Seq<char>) -> nat {
    let used = padded_method(m).len() + byte_len(url);
    if used >= 50 {
        0
    } else {
        (50 - used) as nat
    }
}

/// The number of characters a long summary keeps: those before the last
/// character boundary at or before byte 47.
pub open spec fn summary_cut(s: Seq<char>) -> int {
    cut_index(s, 47)
}

pub open spec fn quick_summary_text(s: Seq<char>) -> Seq<char> {
    if s.len() == 0 {
        Seq::empty()
    } else if byte_len(s) > 50 {
        "# "@ + s.take(summary_cut(s)) + "..."@
    } else {
        "# "@ + s
    }
}

pub open spec fn base_or_empty(base: Option<Seq<char>>) -> Seq<char> {
    match base {
        Some(b) => b,
        None => Seq::empty(),
    }
}

pub open spec fn quick_line_text(ep: EndpointView, base: Option<Seq<char>>) -> Seq<char> {
    let url = base_or_empty(base) + ep.path;
    padded_method(ep.method) + url + spaces(quick_padding(ep.method, url)) + "  "@
        + quick_summary_text(ep.summary) + "\n"@
}

/// The quick-reference lines of the endpoints that carry `tag`.
pub open spec fn tagged_lines_text(
    eps: Seq<EndpointView>,
    tag: Seq<char>,
    base: Option<Seq<char>>,
) -> Seq<char> {
    concat_map(
        eps,
        |e: EndpointView|
            if e.tags.contains(tag) {
                quick_line_text(e, base)
            } else {
                Seq::empty()
            },
    )
}

pub open spec fn tag_group_text(tag: Seq<char>, eps: Seq<EndpointView>, base: Option<Seq<char>>) -> Seq<
    char,
> {
    "# "@ + tag + "\n"@ + tagged_lines_text(eps, tag, base) + "\n"@
}

/// Whether some endpoint carries no tag.
pub open spec fn some_untagged(eps: Seq<EndpointView>) -> bool {
    exists|i: int| 0 <= i < eps.len() && (#[trigger] eps[i]).tags.len() == 0
}

/// The quick-reference lines of the endpoints without tags.
pub open spec fn untagged_lines_text(eps: Seq<EndpointView>, base: Option<Seq<char>>) -> Seq<char> {
    concat_map(
        eps,
        |e: EndpointView|
            if e.tags.len() == 0 {
                quick_line_text(e, base)
            } else {
                Seq::empty()
            },
    )
}

/// The group of the endpoints without tags, which follows the tag groups;
/// nothing when every endpoint has a tag.
pub open spec fn untagged_group_text(eps: Seq<EndpointView>, base: Option<Seq<char>>) -> Seq<char> {
    if some_untagged(eps) {
        "# Untagged\n"@ + untagged_lines_text(eps, base) + "\n"@
    } else {
        Seq::empty()
    }
}

/// The quick reference: every endpoint's line; grouped by tag, with the
/// untagged endpoints in a last group, when any endpoint has a tag.
pub open spec fn overview_text(s: ApiSpecView) -> Seq<char> {
    let tags = collected_tags(s.endpoints);
    "## Quick Reference\n"@ + "\n"@ + "```bash\n"@ + (if tags.len() == 0 {
        concat_map(s.endpoints, |e: EndpointView| quick_line_text(e, s.base_url))
    } else {
        concat_map(tags, |t: Seq<char>| tag_group_text(t, s.endpoints, s.base_url))
            + untagged_group_text(s.endpoints, s.base_url)
    }) + "```\n"@ + "\n"@
}

/// Quick-reference lines are aligned: the method, URL and padding together
/// take fifty bytes, or the method and URL alone when they are longer.
pub proof fn lemma_quick_line_aligned(m: HttpMethod, url: Seq<char>)
    ensures
        byte_len(padded_method(m) + url + spaces(quick_padding(m, url))) == if padded_method(m).len()
            + byte_len(url) >= 50 {
            padded_method(m).len() + byte_len(url)
        } else {
            50
        },
{
    let pm = padded_method(m);
    let sp = spaces(quick_padding(m, url));
    assert(all_ascii(pm)) by {
        assert forall|i: int| 0 <= i < pm.len() implies (#[trigger] pm[i] as u32) <= 0x7F by {
            if i < m.text().len() {
                assert(pm[i] == m.text()[i]);
            } else {
                assert(pm[i] == ' ');
            }
        }
    }
    assert(all_ascii(sp));
    lemma_ascii_byte_len(pm);
    lemma_ascii_byte_len(sp);
    lemma_byte_len_concat(pm, url);
    lemma_byte_len_concat(pm + url, sp);
}

/// `base` (or nothing) followed by `path`.
fn quick_url(base_url: Option<&String>, path: &String) -> (url: String)
    ensures
        url@ == base_or_empty(
            match base_url {
                Some(b) => Some(b@),
                None => None,
            },
        ) + path@,
{
    let mut url = match base_url {
        Some(b) => owned(b.as_str()),
        None => String::new(),
    };
    put(&mut url, path.as_str());
    proof {
        if base_url is None {
            assert(url@ =~= Seq::<char>::empty() + path@);
        }
    }
    url
}

/// Appends the method padded to six characters; returns the padded length.
fn write_padded_method(out: &mut String, m: HttpMethod) -> (len: usize)
    ensures
        final(out)@ == old(out)@ + padded_method(m),
        len == padded_method(m).len(),
        len <= 7,
{
    let name = m.to_string();
    let mname = chars_of(name.as_str());
    let pad: usize = if mname.len() < 6 {
        6 - mname.len()
    } else {
        0
    };
    put(out, name.as_str());
    put_spaces(out, pad);
    assert(out@ =~= old(out)@ + padded_method(m));
    mname.len() + pad
}

fn quick_padding_of(method_len: usize, url: &String, m: HttpMethod) -> (p: usize)
    requires
        method_len == padded_method(m).len(),
        method_len <= 7,
    ensures
        p == quick_padding(m, url@),
{
    let uchars = chars_of(url.as_str());
    let ulen = byte_len_upto(&uchars, 50);
    if ulen >= 50 || method_len as u128 + ulen >= 50 {
        0
    } else {
        50 - method_len - (ulen as usize)
    }
}

fn write_quick_summary(out: &mut String, summary_text: &String)
    ensures
        final(out)@ == old(out)@ + quick_summary_text(summary_text@),
{
    let summary = chars_of(summary_text.as_str());
    if summary.len() > 0 {
        put(out, "# ");
        let slen = byte_len_upto(&summary, 50);
        if slen > 50 {
            let k = cut_chars(&summary, 47);
            let head = string_from_chars(vstd::slice::slice_subrange(summary.as_slice(), 0, k));
            assert(head@ =~= summary_text@.take(k as int));
            put(out, head.as_str());
            put(out, "...");
        } else {
            put(out, summary_text.as_str());
        }
    }
    assert(out@ =~= old(out)@ + quick_summary_text(summary_text@));
}

#[verifier::spinoff_prover]
fn write_endpoint_quick(out: &mut String, ep: &Endpoint, base_url: Option<&String>)
    ensures
        final(out)@ == old(out)@ + quick_line_text(
            ep@,
            match base_url {
                Some(b) => Some(b@),
                None => None,
            },
        ),
{
    let ghost bv = match base_url {
        Some(b) => Some(b@),
        None => None,
    };
    let ghost o0 = out@;
    let url = quick_url(base_url, &ep.path);
    let method_len = write_padded_method(out, ep.method);
    let padding = quick_padding_of(method_len, &url, ep.method);
    let ghost o1 = out@;
    put(out, url.as_str());
    put_spaces(out, padding);
    put(out, "  ");
    let ghost o2 = out@;
    write_quick_summary(out, &ep.summary);
    let ghost o3 = out@;
    put(out, "\n");
    proof {
        let pm = padded_method(ep.method);
        let u = base_or_empty(bv) + ep.path@;
        let sp = spaces(quick_padding(ep.method, u));
        let qs = quick_summary_text(ep.summary@);
        assert(o1 == o0 + pm);
        assert(o2 =~= o1 + (u + sp + "  "@));
        assert(o3 == o2 + qs);
        assert(out@ =~= o0 + (pm + u + sp + "  "@ + qs + "\n"@));
        assert(quick_line_text(ep@, bv) == pm + u + sp + "  "@ + qs + "\n"@);
    }
}

/// Whether some endpoint of the spec carries no tag.
fn any_untagged(spec: &ApiSpec) -> (r: bool)
    ensures
        r == some_untagged(spec@.endpoints),
{
    let ghost eps = spec@.endpoints;
    let mut i: usize = 0;
    while i < spec.endpoints.len()
        invariant
            i <= spec.endpoints@.len(),
            eps == spec@.endpoints,
            eps.len() == spec.endpoints@.len(),
            forall|k: int| 0 <= k < i ==> (#[trigger] eps[k]).tags.len() != 0,
        decreases spec.endpoints@.len() - i,
    {
        assert(eps[i as int] == spec.endpoints@[i as int]@);
        if spec.endpoints[i].tags.len() == 0 {
            assert(eps[i as int].tags.len() == 0);
            return true;
        }
        i = i + 1;
    }
    false
}

/// Appends the group of the endpoints without tags.
fn write_untagged_group(out: &mut String, spec: &ApiSpec, base_url: Option<&String>)
    ensures
        final(out)@ == old(out)@ + untagged_group_text(
            spec@.endpoints,
            match base_url {
                Some(b) => Some(b@),
                None => None,
            },
        ),
{
    let ghost bv = match base_url {
        Some(b) => Some(b@),
        None => None,
    };
    let ghost eps = spec@.endpoints;
    if !any_untagged(spec) {
        assert(out@ =~= old(out)@ + untagged_group_text(eps, bv));
        return;
    }
    put(out, "# Untagged\n");
    let ghost start = out@;
    let ghost h = |e: EndpointView|
        if e.tags.len() == 0 {
            quick_line_text(e, bv)
        } else {
            Seq::empty()
        };
    let mut i: usize = 0;
    while i < spec.endpoints.len()
        invariant
            i <= spec.endpoints@.len(),
            eps == spec@.endpoints,
            eps.len() == spec.endpoints@.len(),
            bv == match base_url {
                Some(b) => Some(b@),
                None => None,
            },
            h == (|e: EndpointView|
                if e.tags.len() == 0 {
                    quick_line_text(e, bv)
                } else {
                    Seq::empty()
                }),
            out@ == start + concat_map(eps.take(i as int), h),
        decreases spec.endpoints@.len() - i,
    {
        proof {
            lemma_concat_map_step(eps, i as int, h);
            assert(eps[i as int] == spec.endpoints@[i as int]@);
        }
        let ep = &spec.endpoints[i];
        if ep.tags.len() == 0 {
            write_endpoint_quick(out, ep, base_url);
            assert(h(eps[i as int]) == quick_line_text(ep@, bv));
        } else {
            assert(h(eps[i as int]) =~= Seq::<char>::empty());
        }
        assert(out@ =~= start + concat_map(eps.take(i + 1), h));
        i = i + 1;
    }
    proof {
        lemma_concat_map_all(eps, h);
    }
    put(out, "\n");
    assert(out@ =~= old(out)@ + untagged_group_text(eps, bv));
}

fn write_endpoints_overview(out: &mut String, spec: &ApiSpec)
    ensures
        final(out)@ == old(out)@ + overview_text(spec@),
{
    put(out, "## Quick Reference\n");
    put(out, "\n");
    put(out, "```bash\n");
    let ghost base = out@;
    let ghost bv = spec@.base_url;
    let ghost eps = spec@.endpoints;
    let tags = collect_tags(spec);
    let base_url: Option<&String> = match &spec.base_url {
        Some(b) => Some(b),
        None => None,
    };
    assert(match base_url {
        Some(b) => Some(b@),
        None => None,
    } == bv);
    if tags.len() == 0 {
        let ghost f = |e: EndpointView| quick_line_text(e, bv);
        let mut i: usize = 0;
        while i < spec.endpoints.len()
            invariant
                i <= spec.endpoints@.len(),
                eps == spec@.endpoints,
                eps.len() == spec.endpoints@.len(),
                bv == match base_url {
                    Some(b) => Some(b@),
                    None => None,
                },
                f == (|e: EndpointView| quick_line_text(e, bv)),
                out@ == base + concat_map(eps.take(i as int), f),
            decreases spec.endpoints@.len() - i,
        {
            proof {
                lemma_concat_map_step(eps, i as int, f);
                assert(eps[i as int] == spec.endpoints@[i as int]@);
            }
            write_endpoint_quick(out, &spec.endpoints[i], base_url);
            assert(out@ =~= base + concat_map(eps.take(i + 1), f));
            i = i + 1;
        }
        proof {
            lemma_concat_map_all(eps, f);
        }
    } else {
        let ghost tv = strings_view(tags@);
        let ghost g = |t: Seq<char>| tag_group_text(t, eps, bv);
        let mut j: usize = 0;
        while j < tags.len()
            invariant
                j <= tags@.len(),
                tv == strings_view(tags@),
                tv.len() == tags@.len(),
                eps == spec@.endpoints,
                eps.len() == spec.endpoints@.len(),
                bv == match base_url {
                    Some(b) => Some(b@),
                    None => None,
                },
                g == (|t: Seq<char>| tag_group_text(t, eps, bv)),
                out@ == base + concat_map(tv.take(j as int), g),
            decreases tags@.len() - j,
        {
            proof {
                lemma_concat_map_step(tv, j as int, g);
            }
            let tag = &tags[j];
            let ghost before = out@;
            put(out, "# ");
            put(out, tag.as_str());
            put(out, "\n");
            let ghost start = out@;
            let ghost h = |e: EndpointView|
                if e.tags.contains(tag@) {
                    quick_line_text(e, bv)
                } else {
                    Seq::empty()
                };
            let mut i: usize = 0;
            while i < spec.endpoints.len()
                invariant
                    i <= spec.endpoints@.len(),
                    eps == spec@.endpoints,
                    eps.len() == spec.endpoints@.len(),
                    bv == match base_url {
                        Some(b) => Some(b@),
                        None => None,
                    },
                    h == (|e: EndpointView|
                        if e.tags.contains(tag@) {
                            quick_line_text(e, bv)
                        } else {
                            Seq::empty()
                        }),
                    out@ == start + concat_map(eps.take(i as int), h),
                decreases spec.endpoints@.len() - i,
            {
                proof {
                    lemma_concat_map_step(eps, i as int, h);
                    assert(eps[i as int] == spec.endpoints@[i as int]@);
                }
                let ep = &spec.endpoints[i];
                let ghost mid = out@;
                if seq_contains_string(&ep.tags, tag) {
                    write_endpoint_quick(out, ep, base_url);
                    assert(h(eps[i as int]) == quick_line_text(ep@, bv));
                } else {
                    assert(h(eps[i as int]) =~= Seq::<char>::empty());
                }
                assert(out@ =~= start + concat_map(eps.take(i + 1), h));
                i = i + 1;
            }
            proof {
                lemma_concat_map_all(eps, h);
            }
            put(out, "\n");
            assert(tv[j as int] == tag@);
            assert(out@ =~= before + tag_group_text(tag@, eps, bv));
            assert(out@ =~= base + concat_map(tv.take(j + 1), g));
            j = j + 1;
        }
        proof {
            lemma_concat_map_all(tv, g);
        }
        let ghost after_tags = out@;
        write_untagged_group(out, spec, base_url);
        assert(out@ =~= base + (concat_map(tv, g) + untagged_group_text(eps, bv)));
    }
    put(out, "```\n");
    put(out, "\n");
    assert(out@ =~= old(out)@ + overview_text(spec@));
}

// ---------------------------------------------------------------------------
// Curl example
// ---------------------------------------------------------------------------
pub open spec fn base_or_example(base: Option<Seq<char>>) -> Seq<char> {
    match base {
        Some(b) => b,
        None => "https://api.example.com"@,
    }
}

/// `name=<value>` for each query parameter, in order.
pub open spec fn query_assignments(ps: Seq<ParameterView>) -> Seq<Seq<char>>
    decreases ps.len(),
{
    if ps.len() == 0 {
        Seq::empty()
    } else {
        let prev = query_assignments(ps.drop_last());
        if ps.last().location == ParameterLocation::Query {
            prev.push(ps.last().name + "=<value>"@)
        } else {
            prev
        }
    }
}

pub open spec fn curl_command_text(ep: EndpointView, url: Seq<char>) -> Seq<char> {
    match ep.method {
        HttpMethod::Get => {
            let qs = query_assignments(ep.parameters);
            if qs.len() == 0 {
                "curl \""@ + url + "\"\n"@
            } else {
                "curl \""@ + url + "?"@ + join_text(qs, "&"@) + "\"\n"@
            }
        },
        HttpMethod::Post | HttpMethod::Put | HttpMethod::Patch => "curl -X "@ + ep.method.text()
            + " \""@ + url + "\" \\\n"@ + "  -H \"Content-Type: application/json\" \\\n"@
            + "  -d '{}'\n"@,
        HttpMethod::Delete => "curl -X DELETE \""@ + url + "\"\n"@,
        _ => "curl \""@ + url + "\"\n"@,
    }
}

pub open spec fn curl_example_text(ep: EndpointView, base: Option<Seq<char>>) -> Seq<char> {
    "**Example:**\n"@ + "```bash\n"@ + curl_command_text(ep, base_or_example(base) + ep.path)
        + "```\n"@ + "\n"@
}

/// The query parameters of `ps`, in order, each as `name=<value>`.
pub open spec fn query_params_assigned(ps: Seq<ParameterView>) -> Seq<Seq<char>> {
    ps.filter(|p: ParameterView| p.location == ParameterLocation::Query).map_values(
        |p: ParameterView| p.name + "=<value>"@,
    )
}

/// The assignments of a GET example are exactly the endpoint's query
/// parameters, in order: no path, header or cookie parameter among them.
pub proof fn lemma_query_assignments_are_query_params(ps: Seq<ParameterView>)
    ensures
        query_assignments(ps) == query_params_assigned(ps),
    decreases ps.len(),
{
    let pred = |p: ParameterView| p.location == ParameterLocation::Query;
    reveal(Seq::filter);
    if ps.len() > 0 {
        lemma_query_assignments_are_query_params(ps.drop_last());
        assert(ps.filter(pred) == if pred(ps.last()) {
            ps.drop_last().filter(pred).push(ps.last())
        } else {
            ps.drop_last().filter(pred)
        });
        let f = |p: ParameterView| p.name + "=<value>"@;
        assert(ps.drop_last().filter(pred).push(ps.last()).map_values(f) =~= ps.drop_last().filter(
            pred,
        ).map_values(f).push(f(ps.last())));
    } else {
        assert(ps.filter(pred) =~= Seq::<ParameterView>::empty());
        assert(query_params_assigned(ps) =~= Seq::<Seq<char>>::empty());
    }
}

/// The curl example of a GET endpoint: the URL, then, when the endpoint has
/// query parameters, `?` and those parameters as `name=<value>` joined by
/// `&`, in order; with no query parameter, no `?` at all.
pub proof fn lemma_get_example_lists_query_params(ep: EndpointView, url: Seq<char>)
    requires
        ep.method == HttpMethod::Get,
    ensures
        curl_command_text(ep, url) == if query_params_assigned(ep.parameters).len() == 0 {
            "curl \""@ + url + "\"\n"@
        } else {
            "curl \""@ + url + "?"@ + join_text(query_params_assigned(ep.parameters), "&"@)
                + "\"\n"@
        },
{
    lemma_query_assignments_are_query_params(ep.parameters);
}

fn query_assignment_strings(ps: &Vec<Parameter>) -> (r: Vec<String>)
    ensures
        strings_view(r@) == query_assignments(crate::ir::parameters_view(ps@)),
{
    let ghost pv = crate::ir::parameters_view(ps@);
    let mut r: Vec<String> = Vec::new();
    let mut i: usize = 0;
    while i < ps.len()
        invariant
            i <= ps@.len(),
            pv == crate::ir::parameters_view(ps@),
            pv.len() == ps@.len(),
            strings_view(r@) == query_assignments(pv.take(i as int)),
        decreases ps@.len() - i,
    {
        assert(pv.take(i + 1).drop_last() =~= pv.take(i as int));
        assert(pv[i as int] == ps@[i as int]@);
        let p = &ps[i];
        if p.location == ParameterLocation::Query {
            let mut a = owned(p.name.as_str());
            put(&mut a, "=<value>");
            r.push(a);
            assert(strings_view(r@) =~= query_assignments(pv.take(i as int)).push(p.name@ + "=<value>"@));
        }
        i = i + 1;
    }
    assert(pv.take(pv.len() as int) =~= pv);
    r
}

#[verifier::spinoff_prover]
#[verifier::rlimit(40)]
fn write_curl_example(out: &mut String, ep: &Endpoint, base_url: Option<&String>)
    ensures
        final(out)@ == old(out)@ + curl_example_text(
            ep@,
            match base_url {
                Some(b) => Some(b@),
                None => None,
            },
        ),
{
    let mut url = match base_url {
        Some(b) => owned(b.as_str()),
        None => owned("https://api.example.com"),
    };
    put(&mut url, ep.path.as_str());
    put(out, "**Example:**\n");
    put(out, "```bash\n");
    match ep.method {
        HttpMethod::Get => {
            let qs = query_assignment_strings(&ep.parameters);
            if qs.len() == 0 {
                put(out, "curl \"");
                put(out, url.as_str());
                put(out, "\"\n");
            } else {
                put(out, "curl \"");
                put(out, url.as_str());
                put(out, "?");
                put_joined(out, &qs, "&");
                put(out, "\"\n");
            }
        },
        HttpMethod::Post | HttpMethod::Put | HttpMethod::Patch => {
            let m = ep.method.to_string();
            put(out, "curl -X ");
            put(out, m.as_str());
            put(out, " \"");
            put(out, url.as_str());
            put(out, "\" \\\n");
            put(out, "  -H \"Content-Type: application/json\" \\\n");
            put(out, "  -d '{}'\n");
        },
        HttpMethod::Delete => {
            put(out, "curl -X DELETE \"");
            put(out, url.as_str());
            put(out, "\"\n");
        },
        _ => {
            put(out, "curl \"");
            put(out, url.as_str());
            put(out, "\"\n");
        },
    }
    put(out, "```\n");
    put(out, "\n");
    assert(out@ =~= old(out)@ + curl_example_text(
        ep@,
        match base_url {
            Some(b) => Some(b@),
            None => None,
        },
    ));
}

// ---------------------------------------------------------------------------
// Endpoint reference
// ---------------------------------------------------------------------------
pub open spec fn param_row_text(p: ParameterView) -> Seq<char> {
    "| `"@ + escape_markdown_text(p.name) + "` | "@ + p.location.text() + " | "@
        + escape_markdown_text(p.schema_type) + " | "@ + yes_no(p.required) + " | "@
        + safe_description_text(p.description, MAX_DESCRIPTION_LENGTH as int) + " |\n"@
}

pub open spec fn params_block_text(ps: Seq<ParameterView>) -> Seq<char> {
    if ps.len() == 0 {
        Seq::empty()
    } else {
        "**Parameters:**\n"@ + "\n"@ + "| Name | In | Type | Required | Description |\n"@
            + "|------|-----|------|----------|-------------|\n"@ + concat_map(
            ps,
            |p: ParameterView| param_row_text(p),
        ) + "\n"@
    }
}

/// A property row with its name, type and description escaped.
pub open spec fn escaped_prop_row_text(p: SchemaPropertyView) -> Seq<char> {
    "| `"@ + escape_markdown_text(p.name) + "` | "@ + escape_markdown_text(p.type_label) + " | "@
        + yes_no(p.required) + " | "@ + safe_description_text(
        p.description,
        MAX_DESCRIPTION_LENGTH as int,
    ) + " |\n"@
}

pub open spec fn body_block_text(body: Option<crate::ir::RequestBodyView>) -> Seq<char> {
    match body {
        Some(b) => "**Request Body** (`"@ + b.content_type + "`"@ + (if b.required {
            ", required"@
        } else {
            Seq::empty()
        }) + ")\n"@ + "\n"@ + match b.schema {
            Some(sc) => if sc.properties.len() > 0 {
                "| Field | Type | Required | Description |\n"@
                    + "|-------|------|----------|-------------|\n"@ + concat_map(
                    sc.properties,
                    |p: SchemaPropertyView| escaped_prop_row_text(p),
                ) + "\n"@
            } else {
                Seq::empty()
            },
            None => Seq::empty(),
        },
        None => Seq::empty(),
    }
}

pub open spec fn response_row_text(r: ResponseView) -> Seq<char> {
    "| "@ + r.status_code + " | "@ + safe_description_text(r.description, MAX_DESCRIPTION_LENGTH as int)
        + " |\n"@
}

pub open spec fn responses_block_text(rs: Seq<ResponseView>) -> Seq<char> {
    if rs.len() == 0 {
        Seq::empty()
    } else {
        "**Responses:**\n"@ + "\n"@ + "| Status | Description |\n"@ + "|--------|-------------|\n"@
            + concat_map(rs, |r: ResponseView| response_row_text(r)) + "\n"@
    }
}

pub open spec fn detail_head_text(ep: EndpointView) -> Seq<char> {
    "### `"@ + ep.method.text() + " "@ + ep.path + "`\n"@ + "\n"@ + (if ep.summary.len() > 0 {
        safe_description_text(ep.summary, MAX_DESCRIPTION_LENGTH as int) + "\n"@ + "\n"@
    } else {
        Seq::empty()
    })
}

pub open spec fn endpoint_detail_text(ep: EndpointView, base: Option<Seq<char>>) -> Seq<char> {
    detail_head_text(ep) + params_block_text(ep.parameters) + body_block_text(ep.request_body)
        + responses_block_text(ep.responses) + curl_example_text(ep, base)
}

pub open spec fn details_text(s: ApiSpecView) -> Seq<char> {
    if s.endpoints.len() == 0 {
        Seq::empty()
    } else {
        "## Endpoint Reference\n"@ + "\n"@ + concat_map(
            s.endpoints,
            |e: EndpointView| endpoint_detail_text(e, s.base_url),
        )
    }
}

fn write_param_row(out: &mut String, p: &Parameter)
    ensures
        final(out)@ == old(out)@ + param_row_text(p@),
{
    let name = escape_markdown(p.name.as_str());
    let loc = p.location.to_string();
    let ty = escape_markdown(p.schema_type.as_str());
    let desc = safe_description(p.description.as_str(), MAX_DESCRIPTION_LENGTH);
    put(out, "| `");
    put(out, name.as_str());
    put(out, "` | ");
    put(out, loc.as_str());
    put(out, " | ");
    put(out, ty.as_str());
    put(out, " | ");
    put_yes_no(out, p.required);
    put(out, " | ");
    put(out, desc.as_str());
    put(out, " |\n");
    assert(out@ =~= old(out)@ + param_row_text(p@));
}

#[verifier::spinoff_prover]
fn write_param_rows(out: &mut String, ps: &Vec<Parameter>)
    ensures
        final(out)@ == old(out)@ + concat_map(
            crate::ir::parameters_view(ps@),
            |p: ParameterView| param_row_text(p),
        ),
{
    let ghost pv = crate::ir::parameters_view(ps@);
    let ghost f = |p: ParameterView| param_row_text(p);
    let ghost base = out@;
    let mut i: usize = 0;
    while i < ps.len()
        invariant
            i <= ps@.len(),
            pv == crate::ir::parameters_view(ps@),
            pv.len() == ps@.len(),
            f == (|p: ParameterView| param_row_text(p)),
            out@ == base + concat_map(pv.take(i as int), f),
        decreases ps@.len() - i,
    {
        proof {
            lemma_concat_map_step(pv, i as int, f);
            assert(pv[i as int] == ps@[i as int]@);
        }
        write_param_row(out, &ps[i]);
        assert(out@ =~= base + concat_map(pv.take(i + 1), f));
        i = i + 1;
    }
    proof {
        lemma_concat_map_all(pv, f);
    }
}

fn write_escaped_prop_row(out: &mut String, p: &SchemaProperty)
    ensures
        final(out)@ == old(out)@ + escaped_prop_row_text(p@),
{
    let name = escape_markdown(p.name.as_str());
    let ty = escape_markdown(p.type_label.as_str());
    let desc = safe_description(p.description.as_str(), MAX_DESCRIPTION_LENGTH);
    put(out, "| `");
    put(out, name.as_str());
    put(out, "` | ");
    put(out, ty.as_str());
    put(out, " | ");
    put_yes_no(out, p.required);
    put(out, " | ");
    put(out, desc.as_str());
    put(out, " |\n");
    assert(out@ =~= old(out)@ + escaped_prop_row_text(p@));
}

#[verifier::spinoff_prover]
fn write_escaped_prop_rows(out: &mut String, props: &Vec<SchemaProperty>)
    ensures
        final(out)@ == old(out)@ + concat_map(
            crate::ir::properties_view(props@),
            |p: SchemaPropertyView| escaped_prop_row_text(p),
        ),
{
    let ghost pv = crate::ir::properties_view(props@);
    let ghost f = |p: SchemaPropertyView| escaped_prop_row_text(p);
    let ghost base = out@;
    let mut i: usize = 0;
    while i < props.len()
        invariant
            i <= props@.len(),
            pv == crate::ir::properties_view(props@),
            pv.len() == props@.len(),
            f == (|p: SchemaPropertyView| escaped_prop_row_text(p)),
            out@ == base + concat_map(pv.take(i as int), f),
        decreases props@.len() - i,
    {
        proof {
            lemma_concat_map_step(pv, i as int, f);
            assert(pv[i as int] == props@[i as int]@);
        }
        write_escaped_prop_row(out, &props[i]);
        assert(out@ =~= base + concat_map(pv.take(i + 1), f));
        i = i + 1;
    }
    proof {
        lemma_concat_map_all(pv, f);
    }
}

fn write_model_prop_row(out: &mut String, p: &SchemaProperty)
    ensures
        final(out)@ == old(out)@ + model_prop_row_text(p@),
{
    let desc = safe_description(p.description.as_str(), MAX_DESCRIPTION_LENGTH);
    put(out, "| `");
    put(out, p.name.as_str());
    put(out, "` | ");
    put(out, p.type_label.as_str());
    put(out, " | ");
    put_yes_no(out, p.required);
    put(out, " | ");
    put(out, desc.as_str());
    put(out, " |\n");
    assert(out@ =~= old(out)@ + model_prop_row_text(p@));
}

#[verifier::spinoff_prover]
fn write_model_prop_rows(out: &mut String, props: &Vec<SchemaProperty>)
    ensures
        final(out)@ == old(out)@ + concat_map(
            crate::ir::properties_view(props@),
            |p: SchemaPropertyView| model_prop_row_text(p),
        ),
{
    let ghost pv = crate::ir::properties_view(props@);
    let ghost f = |p: SchemaPropertyView| model_prop_row_text(p);
    let ghost base = out@;
    let mut i: usize = 0;
    while i < props.len()
        invariant
            i <= props@.len(),
            pv == crate::ir::properties_view(props@),
            pv.len() == props@.len(),
            f == (|p: SchemaPropertyView| model_prop_row_text(p)),
            out@ == base + concat_map(pv.take(i as int), f),
        decreases props@.len() - i,
    {
        proof {
            lemma_concat_map_step(pv, i as int, f);
            assert(pv[i as int] == props@[i as int]@);
        }
        write_model_prop_row(out, &props[i]);
        assert(out@ =~= base + concat_map(pv.take(i + 1), f));
        i = i + 1;
    }
    proof {
        lemma_concat_map_all(pv, f);
    }
}

fn write_response_rows(out: &mut String, rs: &Vec<Response>)
    ensures
        final(out)@ == old(out)@ + concat_map(
            crate::ir::responses_view(rs@),
            |r: ResponseView| response_row_text(r),
        ),
{
    let ghost rv = crate::ir::responses_view(rs@);
    let ghost f = |r: ResponseView| response_row_text(r);
    let ghost base = out@;
    let mut i: usize = 0;
    while i < rs.len()
        invariant
            i <= rs@.len(),
            rv == crate::ir::responses_view(rs@),
            rv.len() == rs@.len(),
            f == (|r: ResponseView| response_row_text(r)),
            out@ == base + concat_map(rv.take(i as int), f),
        decreases rs@.len() - i,
    {
        proof {
            lemma_concat_map_step(rv, i as int, f);
            assert(rv[i as int] == rs@[i as int]@);
        }
        let r = &rs[i];
        let desc = safe_description(r.description.as_str(), MAX_DESCRIPTION_LENGTH);
        put(out, "| ");
        put(out, r.status_code.as_str());
        put(out, " | ");
        put(out, desc.as_str());
        put(out, " |\n");
        assert(out@ =~= base + concat_map(rv.take(i + 1), f));
        i = i + 1;
    }
    proof {
        lemma_concat_map_all(rv, f);
    }
}

fn write_params_block(out: &mut String, ps: &Vec<Parameter>)
    ensures
        final(out)@ == old(out)@ + params_block_text(crate::ir::parameters_view(ps@)),
{
    if ps.len() > 0 {
        put(out, "**Parameters:**\n");
        put(out, "\n");
        put(out, "| Name | In | Type | Required | Description |\n");
        put(out, "|------|-----|------|----------|-------------|\n");
        write_param_rows(out, ps);
        put(out, "\n");
    }
    assert(out@ =~= old(out)@ + params_block_text(crate::ir::parameters_view(ps@)));
}

fn write_body_block(out: &mut String, body: &Option<RequestBody>)
    ensures
        final(out)@ == old(out)@ + body_block_text(crate::ir::opt_body_view(*body)),
{
    if let Some(b) = body {
        put(out, "**Request Body** (`");
        put(out, b.content_type.as_str());
        put(out, "`");
        if b.required {
            put(out, ", required");
        }
        put(out, ")\n");
        put(out, "\n");
        if let Some(sc) = &b.schema {
            if sc.properties.len() > 0 {
                put(out, "| Field | Type | Required | Description |\n");
                put(out, "|-------|------|----------|-------------|\n");
                write_escaped_prop_rows(out, &sc.properties);
                put(out, "\n");
            }
        }
    }
    assert(out@ =~= old(out)@ + body_block_text(crate::ir::opt_body_view(*body)));
}

fn write_responses_block(out: &mut String, rs: &Vec<Response>)
    ensures
        final(out)@ == old(out)@ + responses_block_text(crate::ir::responses_view(rs@)),
{
    if rs.len() > 0 {
        put(out, "**Responses:**\n");
        put(out, "\n");
        put(out, "| Status | Description |\n");
        put(out, "|--------|-------------|\n");
        write_response_rows(out, rs);
        put(out, "\n");
    }
    assert(out@ =~= old(out)@ + responses_block_text(crate::ir::responses_view(rs@)));
}

fn write_detail_head(out: &mut String, ep: &Endpoint)
    ensures
        final(out)@ == old(out)@ + detail_head_text(ep@),
{
    let m = ep.method.to_string();
    put(out, "### `");
    put(out, m.as_str());
    put(out, " ");
    put(out, ep.path.as_str());
    put(out, "`\n");
    put(out, "\n");
    if !ep.summary.as_str().is_empty() {
        let d = safe_description(ep.summary.as_str(), MAX_DESCRIPTION_LENGTH);
        put(out, d.as_str());
        put(out, "\n");
        put(out, "\n");
    }
    assert(out@ =~= old(out)@ + detail_head_text(ep@));
}

fn write_endpoint_detail(out: &mut String, ep: &Endpoint, base_url: Option<&String>)
    ensures
        final(out)@ == old(out)@ + endpoint_detail_text(
            ep@,
            match base_url {
                Some(b) => Some(b@),
                None => None,
            },
        ),
{
    let ghost bv = match base_url {
        Some(b) => Some(b@),
        None => None,
    };
    let ghost o0 = out@;
    write_detail_head(out, ep);
    let ghost a = detail_head_text(ep@);
    write_params_block(out, &ep.parameters);
    let ghost b = params_block_text(ep@.parameters);
    write_body_block(out, &ep.request_body);
    let ghost c = body_block_text(ep@.request_body);
    write_responses_block(out, &ep.responses);
    let ghost d = responses_block_text(ep@.responses);
    write_curl_example(out, ep, base_url);
    let ghost e = curl_example_text(ep@, bv);
    assert(out@ =~= o0 + (a + b + c + d + e));
}

fn write_endpoint_details(out: &mut String, spec: &ApiSpec)
    ensures
        final(out)@ == old(out)@ + details_text(spec@),
{
    if spec.endpoints.len() == 0 {
        assert(out@ =~= old(out)@ + details_text(spec@));
        return;
    }
    put(out, "## Endpoint Reference\n");
    put(out, "\n");
    let ghost base = out@;
    let ghost bv = spec@.base_url;
    let ghost eps = spec@.endpoints;
    let ghost f = |e: EndpointView| endpoint_detail_text(e, bv);
    let base_url: Option<&String> = match &spec.base_url {
        Some(b) => Some(b),
        None => None,
    };
    let mut i: usize = 0;
    while i < spec.endpoints.len()
        invariant
            i <= spec.endpoints@.len(),
            eps == spec@.endpoints,
            eps.len() == spec.endpoints@.len(),
            bv == match base_url {
                Some(b) => Some(b@),
                None => None,
            },
            f == (|e: EndpointView| endpoint_detail_text(e, bv)),
            out@ == base + concat_map(eps.take(i as int), f),
        decreases spec.endpoints@.len() - i,
    {
        proof {
            lemma_concat_map_step(eps, i as int, f);
            assert(eps[i as int] == spec.endpoints@[i as int]@);
        }
        write_endpoint_detail(out, &spec.endpoints[i], base_url);
        assert(out@ =~= base + concat_map(eps.take(i + 1), f));
        i = i + 1;
    }
    proof {
        lemma_concat_map_all(eps, f);
    }
    assert(out@ =~= old(out)@ + details_text(spec@));
}

// ---------------------------------------------------------------------------
// Data models
// ---------------------------------------------------------------------------
/// A property row as written in the data models section (not escaped).
/// A data-model property row: name and type as written, description
/// escaped and capped.
pub open spec fn model_prop_row_text(p: SchemaPropertyView) -> Seq<char> {
    "| `"@ + p.name + "` | "@ + p.type_label + " | "@ + yes_no(p.required) + " | "@
        + safe_description_text(p.description, MAX_DESCRIPTION_LENGTH as int) + " |\n"@
}

pub open spec fn model_head_text(sc: SchemaView) -> Seq<char> {
    "### `"@ + sc.type_label + "`\n"@ + "\n"@ + (if sc.description.len() > 0 {
        safe_description_text(sc.description, MAX_DESCRIPTION_LENGTH as int) + "\n"@ + "\n"@
    } else {
        Seq::empty()
    })
}

pub open spec fn model_values_text(sc: SchemaView) -> Seq<char> {
    if sc.enum_values.len() > 0 {
        "**Values**: "@ + join_text(
            sc.enum_values.map_values(|v: Seq<char>| escape_markdown_text(v)),
            ", "@,
        ) + "\n"@ + "\n"@
    } else {
        Seq::empty()
    }
}

pub open spec fn model_props_text(sc: SchemaView) -> Seq<char> {
    if sc.properties.len() > 0 {
        "| Field | Type | Required | Description |\n"@ + "|-------|------|----------|-------------|\n"@
            + concat_map(sc.properties, |p: SchemaPropertyView| model_prop_row_text(p)) + "\n"@
    } else {
        Seq::empty()
    }
}

pub open spec fn model_text(sc: SchemaView) -> Seq<char> {
    model_head_text(sc) + model_values_text(sc) + model_props_text(sc)
}

pub open spec fn models_text(s: ApiSpecView) -> Seq<char> {
    if s.schemas.len() == 0 {
        Seq::empty()
    } else {
        "## Data Models\n"@ + "\n"@ + concat_map(s.schemas, |sc: SchemaView| model_text(sc))
    }
}

fn escaped_values(vs: &Vec<String>) -> (r: Vec<String>)
    ensures
        strings_view(r@) == strings_view(vs@).map_values(|v: Seq<char>| escape_markdown_text(v)),
{
    let mut r: Vec<String> = Vec::new();
    let mut i: usize = 0;
    while i < vs.len()
        invariant
            i <= vs@.len(),
            r@.len() == i,
            forall|k: int| 0 <= k < i ==> #[trigger] r@[k]@ == escape_markdown_text(vs@[k]@),
        decreases vs@.len() - i,
    {
        let e = escape_markdown(vs[i].as_str());
        r.push(e);
        i = i + 1;
    }
    assert(strings_view(r@) =~= strings_view(vs@).map_values(|v: Seq<char>| escape_markdown_text(v)));
    r
}

fn write_model_head(out: &mut String, sc: &Schema)
    ensures
        final(out)@ == old(out)@ + model_head_text(sc@),
{
    put(out, "### `");
    put(out, sc.type_label.as_str());
    put(out, "`\n");
    put(out, "\n");
    if !sc.description.as_str().is_empty() {
        let desc = safe_description(sc.description.as_str(), MAX_DESCRIPTION_LENGTH);
        put(out, desc.as_str());
        put(out, "\n");
        put(out, "\n");
    }
    assert(out@ =~= old(out)@ + model_head_text(sc@));
}

fn write_model_values(out: &mut String, sc: &Schema)
    ensures
        final(out)@ == old(out)@ + model_values_text(sc@),
{
    if sc.enum_values.len() > 0 {
        let values = escaped_values(&sc.enum_values);
        put(out, "**Values**: ");
        put_joined(out, &values, ", ");
        put(out, "\n");
        put(out, "\n");
    }
    assert(out@ =~= old(out)@ + model_values_text(sc@));
}

fn write_model_props(out: &mut String, sc: &Schema)
    ensures
        final(out)@ == old(out)@ + model_props_text(sc@),
{
    if sc.properties.len() > 0 {
        put(out, "| Field | Type | Required | Description |\n");
        put(out, "|-------|------|----------|-------------|\n");
        write_model_prop_rows(out, &sc.properties);
        put(out, "\n");
    }
    assert(out@ =~= old(out)@ + model_props_text(sc@));
}

fn write_model(out: &mut String, sc: &Schema)
    ensures
        final(out)@ == old(out)@ + model_text(sc@),
{
    let ghost o0 = out@;
    write_model_head(out, sc);
    write_model_values(out, sc);
    write_model_props(out, sc);
    assert(out@ =~= o0 + (model_head_text(sc@) + model_values_text(sc@) + model_props_text(sc@)));
}

fn write_data_models(out: &mut String, spec: &ApiSpec)
    ensures
        final(out)@ == old(out)@ + models_text(spec@),
{
    if spec.schemas.len() == 0 {
        assert(out@ =~= old(out)@ + models_text(spec@));
        return;
    }
    put(out, "## Data Models\n");
    put(out, "\n");
    let ghost base = out@;
    let ghost scs = spec@.schemas;
    let ghost f = |sc: SchemaView| model_text(sc);
    let mut i: usize = 0;
    while i < spec.schemas.len()
        invariant
            i <= spec.schemas@.len(),
            scs == spec@.schemas,
            scs.len() == spec.schemas@.len(),
            f == (|sc: SchemaView| model_text(sc)),
            out@ == base + concat_map(scs.take(i as int), f),
        decreases spec.schemas@.len() - i,
    {
        proof {
            lemma_concat_map_step(scs, i as int, f);
            assert(scs[i as int] == spec.schemas@[i as int]@);
        }
        write_model(out, &spec.schemas[i]);
        assert(out@ =~= base + concat_map(scs.take(i + 1), f));
        i = i + 1;
    }
    proof {
        lemma_concat_map_all(scs, f);
    }
    assert(out@ =~= old(out)@ + models_text(spec@));
}

// ---------------------------------------------------------------------------
// Footer and the whole guide
// ---------------------------------------------------------------------------
pub open spec fn footer_text(s: ApiSpecView) -> Seq<char> {
    "---\n"@ + "**Format**: "@ + s.spec_format.text() + " | **Version**: "@ + match s.version {
        Some(v) => v,
        None => "unknown"@,
    } + "\n"@
}

fn write_footer(out: &mut String, spec: &ApiSpec)
    ensures
        final(out)@ == old(out)@ + footer_text(spec@),
{
    put(out, "---\n");
    put(out, "**Format**: ");
    let f = spec.spec_format.to_string();
    put(out, f.as_str());
    put(out, " | **Version**: ");
    match &spec.version {
        Some(v) => put(out, v.as_str()),
        None => put(out, "unknown"),
    }
    put(out, "\n");
    assert(out@ =~= old(out)@ + footer_text(spec@));
}

/// The whole guide: header, authentication, quick reference, endpoint
/// reference, data models and footer, in this order.
pub open spec fn guide_text(s: ApiSpecView) -> Seq<char> {
    header_text(s) + auth_section_text(s) + overview_text(s) + details_text(s) + models_text(s)
        + footer_text(s)
}

/// Generate a markdown agentic AI guide from an `ApiSpec`.
pub fn generate_guide(spec: &ApiSpec) -> (r: Result<String, GuardError>)
    ensures
        r matches Ok(g) && g@ == guide_text(spec@),
{
    let mut out = String::new();
    write_header(&mut out, spec);
    write_auth_section(&mut out, spec);
    write_endpoints_overview(&mut out, spec);
    write_endpoint_details(&mut out, spec);
    write_data_models(&mut out, spec);
    write_footer(&mut out, spec);
    assert(out@ =~= guide_text(spec@));
    Ok(out)
}

} // verus!
