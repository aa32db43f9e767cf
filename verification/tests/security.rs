use apiguard::error::GuardError;
use apiguard::security::{
    blocked_prefixes, escape_markdown, escape_shell_example, has_traversal, is_system_path,
    looks_like_json, safe_description, spec_file_too_large, validate_json_depth,
    MAX_DESCRIPTION_LENGTH, MAX_JSON_DEPTH,
};

#[test]
fn rejects_traversal_paths() {
    let path = std::path::PathBuf::from("..").join("..").join("etc").join("passwd");
    assert!(has_traversal(&path.to_string_lossy()));
}

#[test]
fn rejects_system_etc_paths() {
    let root = std::path::MAIN_SEPARATOR_STR;
    let path = std::path::Path::new(root).join("etc").join("shadow");
    assert!(is_system_path(&path.to_string_lossy(), root));
}

#[test]
fn rejects_deep_json() {
    let deep = "{".repeat(200) + &"}".repeat(200);
    assert!(validate_json_depth(&deep).is_err());
}

#[test]
fn accepts_normal_json() {
    assert!(validate_json_depth(r#"{"a":{"b":{"c":1}}}"#).is_ok());
}

#[test]
fn escapes_pipes_and_newlines() {
    assert_eq!(escape_markdown("a|b\nc"), "a\\|b c");
}

#[test]
fn truncates_long_descriptions() {
    let long = "a".repeat(600);
    let result = safe_description(&long, MAX_DESCRIPTION_LENGTH);
    assert!(result.len() <= MAX_DESCRIPTION_LENGTH);
    assert!(result.ends_with("..."));
}

#[test]
fn escapes_shell_metacharacters() {
    assert_eq!(escape_shell_example("$(rm)"), "\\$(rm)");
    assert_eq!(escape_shell_example("`cmd`"), "\\`cmd\\`");
}

#[test]
fn json_depth_limit_is_exact() {
    let at_limit = "[".repeat(MAX_JSON_DEPTH) + &"]".repeat(MAX_JSON_DEPTH);
    assert!(validate_json_depth(&at_limit).is_ok());
    let over = "[".repeat(MAX_JSON_DEPTH + 1) + &"]".repeat(MAX_JSON_DEPTH + 1);
    assert!(matches!(validate_json_depth(&over), Err(GuardError::JsonTooDeep)));
}

#[test]
fn json_depth_ignores_brackets_in_strings() {
    let inside = format!("{{\"k\": \"{}\"}}", "[".repeat(300));
    assert!(validate_json_depth(&inside).is_ok());
    // an escaped quote does not end the string
    let escaped = format!("{{\"k\": \"\\\"{}\"}}", "{".repeat(300));
    assert!(validate_json_depth(&escaped).is_ok());
}

#[test]
fn json_depth_counts_the_deepest_point_only() {
    // many shallow siblings never exceed the limit
    let siblings = "{}".repeat(1000);
    assert!(validate_json_depth(&siblings).is_ok());
    // closing more than was opened never goes below zero
    let unbalanced = "]]]]".to_string() + &"[".repeat(MAX_JSON_DEPTH);
    assert!(validate_json_depth(&unbalanced).is_ok());
}

#[test]
fn markdown_escapes_every_special_character() {
    assert_eq!(escape_markdown("a\r\nb`c`|"), "a b'c'\\|");
    assert_eq!(escape_markdown(""), "");
}

#[test]
fn shell_escapes_backslashes() {
    assert_eq!(escape_shell_example("\\$(id)"), "\\\\\\$(id)");
    assert_eq!(escape_shell_example("a\\b"), "a\\\\b");
}

#[test]
fn shell_escapes_quotes() {
    assert_eq!(escape_shell_example("it's"), "it'\\''s");
    assert_eq!(escape_shell_example("say \"hi\""), "say \\\"hi\\\"");
}

#[test]
fn short_descriptions_are_only_escaped() {
    assert_eq!(safe_description("a|b", 10), "a\\|b");
    assert_eq!(safe_description("abcdefghij", 10), "abcdefghij");
}

#[test]
fn truncation_keeps_whole_characters() {
    // each 'é' takes two bytes; eleven of them are 22 bytes
    let s = "é".repeat(11);
    let r = safe_description(&s, 10);
    // the cut falls at the last character starting at or before byte 7 (byte 6)
    assert_eq!(r, format!("{}...", "é".repeat(3)));
    assert!(r.len() <= 10);
    let ascii = safe_description(&"x".repeat(20), 10);
    assert_eq!(ascii, "xxxxxxx...");
}

#[test]
fn tiny_limits_still_end_in_dots() {
    assert_eq!(safe_description("abcdef", 2), "...");
}

#[test]
fn blocked_prefixes_under_root() {
    let p = blocked_prefixes("/");
    assert_eq!(p, vec!["/etc", "/dev", "/proc", "/sys", "/boot"]);
}

#[test]
fn system_paths_by_prefix() {
    assert!(is_system_path("/proc/1/mem", "/"));
    assert!(is_system_path("/etcetera", "/"));
    assert!(!is_system_path("/home/user/out.md", "/"));
    assert!(!has_traversal("docs/guide.md"));
    assert!(has_traversal("a..b"));
}

#[test]
fn spec_size_limit() {
    assert!(!spec_file_too_large(50 * 1024 * 1024));
    assert!(spec_file_too_large(50 * 1024 * 1024 + 1));
}

#[test]
fn json_looking_content() {
    assert!(looks_like_json("  \n{\"a\": 1}"));
    assert!(looks_like_json("[1]"));
    assert!(!looks_like_json("openapi: 3.0.0"));
    assert!(!looks_like_json("   "));
}
