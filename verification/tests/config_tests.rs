use stash_mcp::config::{parse_env_content, strip_quotes, Config, EnvMap};

fn map_of(pairs: &[(&str, &str)]) -> EnvMap {
    let mut m = EnvMap::new();
    for (k, v) in pairs {
        m.insert((*k).to_owned(), (*v).to_owned());
    }
    m
}

fn default_config() -> Config {
    Config::from_map(EnvMap::new()).unwrap()
}

// ── parse_env_content ──────────────────────────────────────────────────

#[test]
fn parses_basic_key_value_pairs() {
    let map = parse_env_content("STASH_SCHEME=http\nSTASH_HOST=localhost\nSTASH_PORT=9999");
    assert_eq!(map.get("STASH_SCHEME").unwrap(), "http");
    assert_eq!(map.get("STASH_HOST").unwrap(), "localhost");
    assert_eq!(map.get("STASH_PORT").unwrap(), "9999");
}

#[test]
fn skips_comment_lines() {
    let map = parse_env_content("# comment\nSTASH_HOST=localhost");
    assert!(!map.contains_key("# comment"));
    assert!(map.contains_key("STASH_HOST"));
}

#[test]
fn skips_blank_lines() {
    let map = parse_env_content("\n\nSTASH_HOST=localhost\n\n");
    assert_eq!(map.len(), 1);
}

#[test]
fn strips_double_quotes_from_value() {
    let map = parse_env_content(r#"STASH_API_KEY="abc123""#);
    assert_eq!(map.get("STASH_API_KEY").unwrap(), "abc123");
}

#[test]
fn strips_single_quotes_from_value() {
    let map = parse_env_content("STASH_API_KEY='abc123'");
    assert_eq!(map.get("STASH_API_KEY").unwrap(), "abc123");
}

#[test]
fn preserves_empty_value() {
    let map = parse_env_content("STASH_API_KEY=");
    assert_eq!(map.get("STASH_API_KEY").unwrap(), "");
}

#[test]
fn value_containing_equals_sign() {
    let map = parse_env_content("KEY=a=b=c");
    assert_eq!(map.get("KEY").unwrap(), "a=b=c");
}

#[test]
fn trims_whitespace_around_key_and_value() {
    let map = parse_env_content("  STASH_HOST  =  localhost  ");
    assert_eq!(map.get("STASH_HOST").unwrap(), "localhost");
}

#[test]
fn later_line_wins_for_repeated_key() {
    let map = parse_env_content("A=1\nB=2\nA=3");
    assert_eq!(map.get("A").unwrap(), "3");
    assert_eq!(map.len(), 2);
}

#[test]
fn crlf_line_endings_are_trimmed() {
    let map = parse_env_content("A=1\r\nB='x'\r\n");
    assert_eq!(map.get("A").unwrap(), "1");
    assert_eq!(map.get("B").unwrap(), "x");
}

#[test]
fn lines_without_equals_or_key_are_skipped() {
    let map = parse_env_content("JUSTTEXT\n=value\n  # note=1\nOK=yes");
    assert_eq!(map.len(), 1);
    assert_eq!(map.get("OK").unwrap(), "yes");
}

#[test]
fn empty_content_gives_empty_map() {
    let map = parse_env_content("");
    assert!(map.is_empty());
}

// ── Config::from_map ───────────────────────────────────────────────────

#[test]
fn config_uses_defaults_when_map_is_empty() {
    let cfg = default_config();
    assert_eq!(cfg.endpoint, "http://localhost:9999");
    assert_eq!(cfg.api_key, "");
    assert!(cfg.favorites_only);
}

#[test]
fn config_reads_keys() {
    let map = map_of(&[
        ("STASH_HOST", "https://stash.local"),
        ("STASH_API_KEY", "secret"),
        ("STASH_DB_API_KEY", "dbsecret"),
        ("FAVORITES_ONLY", "false"),
    ]);
    let cfg = Config::from_map(map).unwrap();
    assert_eq!(cfg.endpoint, "https://stash.local");
    assert_eq!(cfg.api_key, "secret");
    assert_eq!(cfg.api_key_db, "dbsecret");
    assert!(!cfg.favorites_only);
}

#[test]
fn config_favorites_only_case_insensitive_false() {
    for value in &["false", "FALSE", "False"] {
        let map = map_of(&[("FAVORITES_ONLY", value)]);
        assert!(!Config::from_map(map).unwrap().favorites_only, "{value}");
    }
}

#[test]
fn config_favorites_only_true_by_default_and_any_other_value() {
    for value in &["true", "TRUE", "yes", "1"] {
        let map = map_of(&[("FAVORITES_ONLY", value)]);
        assert!(Config::from_map(map).unwrap().favorites_only, "{value}");
    }
}

#[test]
fn config_empty_host_falls_back_to_default() {
    let cfg = Config::from_map(map_of(&[("STASH_HOST", ""), ("FAVORITES_ONLY", "")])).unwrap();
    assert_eq!(cfg.endpoint, "http://localhost:9999");
    assert!(cfg.favorites_only);
}

// ── URL helpers ────────────────────────────────────────────────────────

#[test]
fn base_url_returns_endpoint() {
    let cfg = default_config();
    assert_eq!(cfg.base_url(), "http://localhost:9999");
}

#[test]
fn base_url_strips_trailing_slash() {
    let cfg = Config::from_map(map_of(&[("STASH_HOST", "https://stash.local/")])).unwrap();
    assert_eq!(cfg.base_url(), "https://stash.local");
}

#[test]
fn base_url_strips_every_trailing_slash() {
    let cfg = Config::from_map(map_of(&[("STASH_HOST", "https://stash.local///")])).unwrap();
    assert_eq!(cfg.base_url(), "https://stash.local");
}

#[test]
fn graphql_url_appends_path() {
    let cfg = default_config();
    assert_eq!(cfg.graphql_url(), "http://localhost:9999/graphql");
}

#[test]
fn performer_url_appends_id() {
    let cfg = default_config();
    assert_eq!(cfg.performer_url("42"), "http://localhost:9999/performers/42");
}

#[test]
fn scene_url_appends_id() {
    let cfg = default_config();
    assert_eq!(cfg.scene_url("7"), "http://localhost:9999/scenes/7");
}

// ── strip_quotes ───────────────────────────────────────────────────────

#[test]
fn strip_quotes_removes_double_quotes() {
    assert_eq!(strip_quotes("\"hello\""), "hello");
}

#[test]
fn strip_quotes_removes_single_quotes() {
    assert_eq!(strip_quotes("'hello'"), "hello");
}

#[test]
fn strip_quotes_leaves_unquoted_unchanged() {
    assert_eq!(strip_quotes("hello"), "hello");
}

#[test]
fn strip_quotes_mismatched_quotes_unchanged() {
    assert_eq!(strip_quotes("\"hello'"), "\"hello'");
}

#[test]
fn strip_quotes_single_char_unchanged() {
    assert_eq!(strip_quotes("\""), "\"");
}

#[test]
fn strip_quotes_two_quotes_give_empty() {
    assert_eq!(strip_quotes("\"\""), "");
}

#[test]
fn single_line_reads_back_key_and_unquoted_value() {
    let map = parse_env_content("STASH_API_KEY=\"a b=c\"");
    assert_eq!(map.len(), 1);
    assert_eq!(map.get("STASH_API_KEY").map(String::as_str), Some("a b=c"));
}

#[test]
fn later_text_overrides_earlier_text() {
    let map = parse_env_content("A=1\nB=2\n# A=3\nA=4");
    assert_eq!(map.get("A").map(String::as_str), Some("4"));
    assert_eq!(map.get("B").map(String::as_str), Some("2"));
    assert_eq!(map.len(), 2);
}
