//! Input limits, output escaping and the rules for where output may be written.
use crate::error::GuardError;
use crate::text::{
    byte_len, byte_len_upto, char_width_of, chars_of, contains_str, contains_text, lemma_byte_len_concat,
    lemma_byte_len_take_strict, owned, push_char, put, starts_with_text, string_from_chars,
    trim_start_text, trimmed_starts_with,
};
use vstd::prelude::*;
use vstd::string::*;

verus! {

/// Maximum spec file size (50 MB).
pub const MAX_SPEC_FILE_BYTES: u64 = 52428800;

/// Maximum number of endpoints to process.
pub const MAX_ENDPOINTS: usize = 10000;

/// Maximum number of schema properties to process.
pub const MAX_SCHEMA_PROPERTIES: usize = 1000;

/// Maximum length for descriptions in generated output.
pub const MAX_DESCRIPTION_LENGTH: usize = 500;

/// Maximum JSON nesting depth to prevent stack overflow.
pub const MAX_JSON_DEPTH: usize = 128;

// ---------------------------------------------------------------------------
// JSON nesting depth
// ---------------------------------------------------------------------------
/// The state of the nesting scan after a prefix of the input.
pub struct JsonScan {
    pub depth: nat,
    pub max_depth: nat,
    pub in_string: bool,
    pub escape_next: bool,
}

/// One character of the scan: string literals (with backslash escapes) are
/// skipped, `{`/`[` open a level, `}`/`]` close one (never below zero).
pub open spec fn json_step(st: JsonScan, c: char) -> JsonScan {
    if st.escape_next {
        JsonScan { escape_next: false, ..st }
    } else if c == '\\' && st.in_string {
        JsonScan { escape_next: true, ..st }
    } else if c == '"' {
        JsonScan { in_string: !st.in_string, ..st }
    } else if st.in_string {
        st
    } else if c == '{' || c == '[' {
        let d = st.depth + 1;
        JsonScan { depth: d, max_depth: if d > st.max_depth { d } else { st.max_depth }, ..st }
    } else if c == '}' || c == ']' {
        JsonScan { depth: if st.depth > 0 { (st.depth - 1) as nat } else { 0 }, ..st }
    } else {
        st
    }
}

/// The scan state after all of `s`.
pub open spec fn json_scan(s: Seq<char>) -> JsonScan
    decreases s.len(),
{
    if s.len() == 0 {
        JsonScan { depth: 0, max_depth: 0, in_string: false, escape_next: false }
    } else {
        json_step(json_scan(s.drop_last()), s.last())
    }
}

/// The deepest nesting of `{`/`[` outside string literals in `s`.
pub open spec fn json_max_depth(s: Seq<char>) -> nat {
    json_scan(s).max_depth
}

proof fn lemma_json_max_depth_grows(s: Seq<char>, i: int)
    requires
        0 <= i <= s.len(),
    ensures
        json_max_depth(s.take(i)) <= json_max_depth(s),
    decreases s.len() - i,
{
    if i < s.len() {
        lemma_json_max_depth_grows(s, i + 1);
        assert(s.take(i + 1).drop_last() =~= s.take(i));
    } else {
        assert(s.take(i) =~= s);
    }
}

/// Validate JSON nesting depth doesn't exceed the limit.
pub fn validate_json_depth(content: &str) -> (r: Result<(), GuardError>)
    ensures
        r is Ok <==> json_max_depth(content@) <= MAX_JSON_DEPTH,
        r is Err ==> r == Err::<(), GuardError>(GuardError::JsonTooDeep),
{
    let v = chars_of(content);
    let mut depth: usize = 0;
    let mut max_depth: usize = 0;
    let mut in_string = false;
    let mut escape_next = false;
    let mut i: usize = 0;
    while i < v.len()
        invariant
            v@ == content@,
            i <= v@.len(),
            json_scan(v@.take(i as int)) == (JsonScan {
                depth: depth as nat,
                max_depth: max_depth as nat,
                in_string,
                escape_next,
            }),
            depth <= max_depth <= MAX_JSON_DEPTH,
        decreases v@.len() - i,
    {
        let ch = v[i];
        assert(v@.take(i + 1).drop_last() =~= v@.take(i as int));
        i = i + 1;
        if escape_next {
            escape_next = false;
            continue;
        }
        if ch == '\\' && in_string {
            escape_next = true;
            continue;
        }
        if ch == '"' {
            in_string = !in_string;
            continue;
        }
        if in_string {
            continue;
        }
        if ch == '{' || ch == '[' {
            depth = depth + 1;
            if depth > max_depth {
                max_depth = depth;
            }
            if max_depth > MAX_JSON_DEPTH {
                proof {
                    lemma_json_max_depth_grows(v@, i as int);
                }
                return Err(GuardError::JsonTooDeep);
            }
        } else if ch == '}' || ch == ']' {
            depth = depth.saturating_sub(1);
        }
    }
    assert(v@.take(v@.len() as int) =~= v@);
    Ok(())
}

// ---------------------------------------------------------------------------
// Escaping
// ---------------------------------------------------------------------------
/// Each character of `s` replaced by `f` of it.
pub open spec fn flat_map_chars(s: Seq<char>, f: spec_fn(char) -> Seq<char>) -> Seq<char>
    decreases s.len(),
{
    if s.len() == 0 {
        Seq::empty()
    } else {
        flat_map_chars(s.drop_last(), f) + f(s.last())
    }
}

/// Markdown escaping of one character: `|` → `\|`, newline → space,
/// carriage return dropped, backtick → `'`.
pub open spec fn markdown_escape_char(c: char) -> Seq<char> {
    if c == '|' {
        seq!['\\', '|']
    } else if c == '\n' {
        seq![' ']
    } else if c == '\r' {
        Seq::empty()
    } else if c == '`' {
        seq!['\'']
    } else {
        seq![c]
    }
}

pub open spec fn escape_markdown_text(s: Seq<char>) -> Seq<char> {
    flat_map_chars(s, |c: char| markdown_escape_char(c))
}

/// Shell escaping of one character: `'` → `'\''`, and `\`, `$`, backtick and
/// `"` get a backslash in front.
pub open spec fn shell_escape_char(c: char) -> Seq<char> {
    if c == '\\' {
        seq!['\\', '\\']
    } else if c == '\'' {
        seq!['\'', '\\', '\'', '\'']
    } else if c == '$' {
        seq!['\\', '$']
    } else if c == '`' {
        seq!['\\', '`']
    } else if c == '"' {
        seq!['\\', '"']
    } else {
        seq![c]
    }
}

pub open spec fn escape_shell_text(s: Seq<char>) -> Seq<char> {
    flat_map_chars(s, |c: char| shell_escape_char(c))
}

/// Whether the shell reads `s` literally inside double quotes: reading from
/// the left, each backslash takes the character after it as a literal, and no
/// `$`, backtick or `"` stands unescaped.
pub open spec fn shell_dq_literal(s: Seq<char>) -> bool
    decreases s.len(),
{
    if s.len() == 0 {
        true
    } else if s[0] == '\\' {
        s.len() >= 2 && shell_dq_literal(s.subrange(2, s.len() as int))
    } else if s[0] == '$' || s[0] == '`' || s[0] == '"' {
        false
    } else {
        shell_dq_literal(s.drop_first())
    }
}

proof fn lemma_shell_dq_literal_concat(a: Seq<char>, b: Seq<char>)
    requires
        shell_dq_literal(a),
        shell_dq_literal(b),
    ensures
        shell_dq_literal(a + b),
    decreases a.len(),
{
    if a.len() == 0 {
        assert(a + b =~= b);
    } else if a[0] == '\\' {
        lemma_shell_dq_literal_concat(a.subrange(2, a.len() as int), b);
        assert((a + b).subrange(2, (a + b).len() as int) =~= a.subrange(2, a.len() as int) + b);
    } else {
        lemma_shell_dq_literal_concat(a.drop_first(), b);
        assert((a + b).drop_first() =~= a.drop_first() + b);
    }
}

proof fn lemma_shell_escape_char_literal(c: char)
    ensures
        shell_dq_literal(shell_escape_char(c)),
{
    let p = shell_escape_char(c);
    let e = Seq::<char>::empty();
    assert(shell_dq_literal(e));
    if c == '\\' || c == '$' || c == '`' || c == '"' {
        assert(p.subrange(2, p.len() as int) =~= e);
    } else if c == '\'' {
        let q = seq!['\''];
        assert(q.drop_first() =~= e);
        assert(shell_dq_literal(q));
        let r = seq!['\\', '\'', '\''];
        assert(r.subrange(2, 3) =~= q);
        assert(shell_dq_literal(r));
        assert(p.drop_first() =~= r);
    } else {
        assert(p.drop_first() =~= e);
    }
}

/// Every occurrence of `c` in `s` comes right after a backslash.
pub open spec fn always_backslashed(s: Seq<char>, c: char) -> bool {
    forall|k: int| 0 <= k < s.len() && #[trigger] s[k] == c ==> k > 0 && s[k - 1] == '\\'
}

/// `c` does not occur in `s`.
pub open spec fn free_of(s: Seq<char>, c: char) -> bool {
    forall|k: int| 0 <= k < s.len() ==> #[trigger] s[k] != c
}

proof fn lemma_backslashed_concat(a: Seq<char>, b: Seq<char>, c: char)
    requires
        always_backslashed(a, c),
        always_backslashed(b, c),
    ensures
        always_backslashed(a + b, c),
{
    assert forall|k: int| 0 <= k < (a + b).len() && #[trigger] (a + b)[k] == c implies k > 0 && (a
        + b)[k - 1] == '\\' by {
        if k >= a.len() {
            assert(b[k - a.len()] == c);
        } else {
            assert(a[k] == c);
        }
    }
}

proof fn lemma_free_of_concat(a: Seq<char>, b: Seq<char>, c: char)
    requires
        free_of(a, c),
        free_of(b, c),
    ensures
        free_of(a + b, c),
{
    assert forall|k: int| 0 <= k < (a + b).len() implies #[trigger] (a + b)[k] != c by {
        if k >= a.len() {
            assert(b[k - a.len()] != c);
        }
    }
}

/// Markdown escaping leaves no newline, carriage return or backtick, and every
/// `|` it leaves is backslash-escaped.
pub proof fn lemma_escape_markdown_safe(s: Seq<char>)
    ensures
        free_of(escape_markdown_text(s), '\n'),
        free_of(escape_markdown_text(s), '\r'),
        free_of(escape_markdown_text(s), '`'),
        always_backslashed(escape_markdown_text(s), '|'),
    decreases s.len(),
{
    let f = |c: char| markdown_escape_char(c);
    if s.len() > 0 {
        lemma_escape_markdown_safe(s.drop_last());
        let prev = escape_markdown_text(s.drop_last());
        let piece = markdown_escape_char(s.last());
        assert(escape_markdown_text(s) == prev + piece);
        lemma_free_of_concat(prev, piece, '\n');
        lemma_free_of_concat(prev, piece, '\r');
        lemma_free_of_concat(prev, piece, '`');
        lemma_backslashed_concat(prev, piece, '|');
    }
}

/// Shell escaping makes text that the shell reads literally inside double
/// quotes: every backslash escapes the character after it, and every `$`,
/// backtick and `"` is escaped.
pub proof fn lemma_escape_shell_safe(s: Seq<char>)
    ensures
        shell_dq_literal(escape_shell_text(s)),
    decreases s.len(),
{
    if s.len() > 0 {
        lemma_escape_shell_safe(s.drop_last());
        let prev = escape_shell_text(s.drop_last());
        let piece = shell_escape_char(s.last());
        assert(escape_shell_text(s) == prev + piece);
        lemma_shell_escape_char_literal(s.last());
        lemma_shell_dq_literal_concat(prev, piece);
    }
}

/// Escape a string for safe inclusion in markdown tables and inline contexts.
pub fn escape_markdown(s: &str) -> (r: String)
    ensures
        r@ == escape_markdown_text(s@),
        free_of(r@, '\n'),
        free_of(r@, '\r'),
        free_of(r@, '`'),
        always_backslashed(r@, '|'),
{
    let v = chars_of(s);
    let mut out = String::new();
    let mut i: usize = 0;
    while i < v.len()
        invariant
            i <= v@.len(),
            out@ == escape_markdown_text(v@.take(i as int)),
        decreases v@.len() - i,
    {
        let c = v[i];
        assert(v@.take(i + 1).drop_last() =~= v@.take(i as int));
        if c == '|' {
            push_char(&mut out, '\\');
            push_char(&mut out, '|');
        } else if c == '\n' {
            push_char(&mut out, ' ');
        } else if c == '\r' {
        } else if c == '`' {
            push_char(&mut out, '\'');
        } else {
            push_char(&mut out, c);
        }
        assert(out@ =~= escape_markdown_text(v@.take(i + 1)));
        i = i + 1;
    }
    assert(v@.take(v@.len() as int) =~= v@);
    proof {
        lemma_escape_markdown_safe(s@);
    }
    out
}

/// Escape a string for safe inclusion in shell command examples.
pub fn escape_shell_example(s: &str) -> (r: String)
    ensures
        r@ == escape_shell_text(s@),
        shell_dq_literal(r@),
{
    let v = chars_of(s);
    let mut out = String::new();
    let mut i: usize = 0;
    while i < v.len()
        invariant
            i <= v@.len(),
            out@ == escape_shell_text(v@.take(i as int)),
        decreases v@.len() - i,
    {
        let c = v[i];
        assert(v@.take(i + 1).drop_last() =~= v@.take(i as int));
        if c == '\\' {
            push_char(&mut out, '\\');
            push_char(&mut out, '\\');
        } else if c == '\'' {
            push_char(&mut out, '\'');
            push_char(&mut out, '\\');
            push_char(&mut out, '\'');
            push_char(&mut out, '\'');
        } else if c == '$' {
            push_char(&mut out, '\\');
            push_char(&mut out, '$');
        } else if c == '`' {
            push_char(&mut out, '\\');
            push_char(&mut out, '`');
        } else if c == '"' {
            push_char(&mut out, '\\');
            push_char(&mut out, '"');
        } else {
            push_char(&mut out, c);
        }
        assert(out@ =~= escape_shell_text(v@.take(i + 1)));
        i = i + 1;
    }
    assert(v@.take(v@.len() as int) =~= v@);
    proof {
        lemma_escape_shell_safe(s@);
    }
    out
}

// ---------------------------------------------------------------------------
// Truncation
// ---------------------------------------------------------------------------
/// `j` is the last character of `s` whose first byte lies at or before byte `t`.
pub open spec fn is_cut(s: Seq<char>, t: int, j: int) -> bool {
    &&& 0 <= j < s.len()
    &&& byte_len(s.take(j)) <= t
    &&& (j + 1 == s.len() || byte_len(s.take(j + 1)) > t)
}

/// The character index at which a description is cut so that its kept part
/// ends at or before byte `t`.
pub open spec fn cut_index(s: Seq<char>, t: int) -> int {
    choose|j: int| is_cut(s, t, j)
}

pub proof fn lemma_cut_unique(s: Seq<char>, t: int, j: int, k: int)
    requires
        is_cut(s, t, j),
        is_cut(s, t, k),
    ensures
        j == k,
{
    if j < k {
        lemma_byte_len_take_strict(s, j + 1, k);
        if j + 1 < k {
        }
    } else if k < j {
        lemma_byte_len_take_strict(s, k + 1, j);
    }
}

/// The three-dot marker that ends a truncated description.
pub open spec fn ellipsis() -> Seq<char> {
    seq!['.', '.', '.']
}

/// The escaped description, or, when it is longer than `max_len` bytes, its
/// longest prefix that starts its last kept character at or before byte
/// `max_len - 3`, followed by `...`.
pub open spec fn safe_description_text(desc: Seq<char>, max_len: int) -> Seq<char> {
    let e = escape_markdown_text(desc);
    if byte_len(e) <= max_len {
        e
    } else {
        let t = if max_len >= 3 {
            max_len - 3
        } else {
            0
        };
        e.take(cut_index(e, t)) + ellipsis()
    }
}

/// Truncate a description to a safe maximum length, respecting UTF-8 char boundaries.
pub fn safe_description(desc: &str, max_len: usize) -> (r: String)
    ensures
        r@ == safe_description_text(desc@, max_len as int),
        max_len >= 3 ==> byte_len(r@) <= max_len,
{
    let escaped = escape_markdown(desc);
    let e = chars_of(escaped.as_str());
    let total = byte_len_upto(&e, max_len);
    if total <= max_len as u128 {
        return escaped;
    }
    let t: usize = max_len.saturating_sub(3);
    proof {
        assert(byte_len(e@) > 0);
        if e@.len() == 0 {
            assert(byte_len(e@) == 0);
        }
    }
    let j = cut_chars(&e, t);
    let mut out = string_from_chars(slice_subrange_of(&e, j));
    put_ellipsis(&mut out);
    proof {
        lemma_byte_len_concat(e@.take(j as int), ellipsis());
        reveal_with_fuel(byte_len, 4);
        assert(ellipsis().drop_last().drop_last().drop_last() =~= Seq::<char>::empty());
    }
    out
}

/// The index of the last character of `e` whose first byte lies at or before
/// byte `t`.
pub fn cut_chars(e: &Vec<char>, t: usize) -> (j: usize)
    requires
        e@.len() > 0,
    ensures
        is_cut(e@, t as int, j as int),
        j as int == cut_index(e@, t as int),
{
    let mut j: usize = 0;
    let mut acc: u128 = 0;
    let elen = e.len();
    assert(e@.take(0) =~= Seq::<char>::empty());
    while j + 1 < elen && acc + (char_width_of(e[j]) as u128) <= t as u128
        invariant
            elen == e@.len(),
            0 <= j < e@.len(),
            acc == byte_len(e@.take(j as int)),
            acc <= t,
        decreases e@.len() - j,
    {
        assert(e@.take(j + 1).drop_last() =~= e@.take(j as int));
        acc = acc + (char_width_of(e[j]) as u128);
        j = j + 1;
    }
    proof {
        assert(e@.take(j + 1).drop_last() =~= e@.take(j as int));
        assert(is_cut(e@, t as int, j as int));
        let c = cut_index(e@, t as int);
        lemma_cut_unique(e@, t as int, j as int, c);
    }
    j
}

fn slice_subrange_of(v: &Vec<char>, j: usize) -> (r: &[char])
    requires
        j <= v@.len(),
    ensures
        r@ == v@.take(j as int),
{
    let r = vstd::slice::slice_subrange(v.as_slice(), 0, j);
    assert(r@ =~= v@.take(j as int));
    r
}

fn put_ellipsis(out: &mut String)
    ensures
        final(out)@ == old(out)@ + ellipsis(),
{
    push_char(out, '.');
    push_char(out, '.');
    push_char(out, '.');
    assert(final(out)@ =~= old(out)@ + ellipsis());
}

// ---------------------------------------------------------------------------
// Where files may be read and written
// ---------------------------------------------------------------------------
/// Whether a spec file of `len` bytes is over the size limit.
pub fn spec_file_too_large(len: u64) -> (r: bool)
    ensures
        r == (len > MAX_SPEC_FILE_BYTES),
{
    len > MAX_SPEC_FILE_BYTES
}

/// Whether an output path contains `..` anywhere.
pub fn has_traversal(path: &str) -> (r: bool)
    ensures
        r == contains_text(path@, seq!['.', '.']),
{
    let dots = string_from_chars(&['.', '.']);
    assert(dots@ =~= seq!['.', '.']);
    contains_str(path, dots.as_str())
}

/// The names of the system directories below the file system root.
pub open spec fn system_dir_names() -> Seq<Seq<char>> {
    seq![seq!['e', 't', 'c'], seq!['d', 'e', 'v'], seq!['p', 'r', 'o', 'c'], seq!['s', 'y', 's'], seq!['b', 'o', 'o', 't']]
}

/// Returns the list of system directory prefixes that must never be written
/// to: the root followed by each system directory name.
pub fn blocked_prefixes(root: &str) -> (r: Vec<String>)
    ensures
        r@.len() == system_dir_names().len(),
        forall|i: int| 0 <= i < r@.len() ==> #[trigger] r@[i]@ == root@ + system_dir_names()[i],
{
    let names: [&[char]; 5] = [
        &['e', 't', 'c'],
        &['d', 'e', 'v'],
        &['p', 'r', 'o', 'c'],
        &['s', 'y', 's'],
        &['b', 'o', 'o', 't'],
    ];
    let mut r: Vec<String> = Vec::new();
    let mut i: usize = 0;
    while i < 5
        invariant
            i <= 5,
            r@.len() == i,
            names@.len() == 5,
            names@[0]@ == system_dir_names()[0],
            names@[1]@ == system_dir_names()[1],
            names@[2]@ == system_dir_names()[2],
            names@[3]@ == system_dir_names()[3],
            names@[4]@ == system_dir_names()[4],
            forall|k: int| 0 <= k < i ==> #[trigger] r@[k]@ == root@ + system_dir_names()[k],
        decreases 5 - i,
    {
        let mut p = owned(root);
        let name = string_from_chars(names[i]);
        put(&mut p, name.as_str());
        r.push(p);
        i = i + 1;
    }
    r
}

/// Whether a resolved output path lies under a system directory, by string
/// prefix.
pub fn is_system_path(resolved: &str, root: &str) -> (r: bool)
    ensures
        r == exists|i: int|
            0 <= i < system_dir_names().len() && starts_with_text(
                resolved@,
                #[trigger] (root@ + system_dir_names()[i]),
            ),
{
    let prefixes = blocked_prefixes(root);
    let v = chars_of(resolved);
    let mut i: usize = 0;
    while i < prefixes.len()
        invariant
            i <= prefixes@.len(),
            v@ == resolved@,
            prefixes@.len() == system_dir_names().len(),
            forall|k: int| 0 <= k < prefixes@.len() ==> #[trigger] prefixes@[k]@ == root@ + system_dir_names()[k],
            forall|k: int| 0 <= k < i ==> !starts_with_text(resolved@, #[trigger] (root@ + system_dir_names()[k])),
        decreases prefixes@.len() - i,
    {
        let p = chars_of(prefixes[i].as_str());
        if p.len() <= v.len() && starts_with_chars(&v, &p) {
            return true;
        }
        i = i + 1;
    }
    false
}

fn starts_with_chars(v: &Vec<char>, p: &Vec<char>) -> (r: bool)
    requires
        p@.len() <= v@.len(),
    ensures
        r == starts_with_text(v@, p@),
{
    let mut k: usize = 0;
    while k < p.len()
        invariant
            p@.len() <= v@.len(),
            k <= p@.len(),
            forall|m: int| 0 <= m < k ==> v@[m] == p@[m],
        decreases p@.len() - k,
    {
        if v[k] != p[k] {
            assert(v@.take(p@.len() as int)[k as int] != p@[k as int]);
            return false;
        }
        k = k + 1;
    }
    assert(v@.take(p@.len() as int) =~= p@);
    true
}

/// Whether spec text looks like JSON: its first non-whitespace character is
/// `{` or `[`.
pub fn looks_like_json(content: &str) -> (r: bool)
    ensures
        r == (trim_start_text(content@).len() > 0 && (trim_start_text(content@)[0] == '{'
            || trim_start_text(content@)[0] == '[')),
{
    trimmed_starts_with(content, '{') || trimmed_starts_with(content, '[')
}

} // verus!
