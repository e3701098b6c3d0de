use stash_mcp::cli::{config_source, parse_cli_args, CliAction, ConfigSource};
use stash_mcp::json::{JsonNumber, JsonValue};
use stash_mcp::probe::{frame_line, intercept_probe, probe_reply, METHOD_NOT_FOUND};

fn args(list: &[&str]) -> Vec<String> {
    list.iter().map(|s| s.to_string()).collect()
}

// ── discovery probe ───────────────────────────────────────────────────

#[test]
fn intercepts_agy_server_discover_probe() {
    let line = br#"{"jsonrpc":"2.0","id":1,"method":"server/discover","params":{}}"#;
    let reply = intercept_probe(line).expect("server/discover must be intercepted");
    assert!(reply.ends_with(b"\n"), "reply must be newline-framed");
    let v: serde_json::Value = serde_json::from_slice(&reply).unwrap();
    assert_eq!(v["jsonrpc"], serde_json::Value::from("2.0"));
    assert_eq!(v["id"], serde_json::Value::from(1), "must echo the request id back");
    assert_eq!(v["error"]["code"], serde_json::Value::from(-32601), "must be Method not found");
}

#[test]
fn intercept_echoes_string_id() {
    let line = br#"{"jsonrpc":"2.0","id":"probe-7","method":"server/discover"}"#;
    let reply = intercept_probe(line).unwrap();
    let v: serde_json::Value = serde_json::from_slice(&reply).unwrap();
    assert_eq!(v["id"], serde_json::Value::from("probe-7"));
}

#[test]
fn initialize_passes_through() {
    let line = br#"{"jsonrpc":"2.0","id":1,"method":"initialize","params":{}}"#;
    assert!(intercept_probe(line).is_none(), "initialize must never be swallowed");
}

#[test]
fn normal_mcp_traffic_passes_through() {
    assert!(intercept_probe(br#"{"jsonrpc":"2.0","method":"notifications/initialized"}"#).is_none());
    assert!(intercept_probe(br#"{"jsonrpc":"2.0","id":2,"method":"tools/list"}"#).is_none());
    assert!(intercept_probe(br#"{"jsonrpc":"2.0","id":3,"method":"tools/call","params":{}}"#).is_none());
}

#[test]
fn non_json_and_empty_lines_pass_through() {
    assert!(intercept_probe(b"this is not json\n").is_none());
    assert!(intercept_probe(b"\n").is_none());
    assert!(intercept_probe(b"").is_none());
}

#[test]
fn probe_notification_without_id_is_not_answered() {
    let msg = JsonValue::Object(vec![("method".to_owned(), JsonValue::Str("server/discover".to_owned()))]);
    assert!(probe_reply(msg).is_none());
}

#[test]
fn probe_reply_is_the_exact_error_object() {
    let msg = JsonValue::Object(vec![
        ("id".to_owned(), JsonValue::Number(JsonNumber::Int(9))),
        ("method".to_owned(), JsonValue::Str("server/discover".to_owned())),
    ]);
    let reply = probe_reply(msg).unwrap();
    let expected = JsonValue::Object(vec![
        ("jsonrpc".to_owned(), JsonValue::Str("2.0".to_owned())),
        ("id".to_owned(), JsonValue::Number(JsonNumber::Int(9))),
        (
            "error".to_owned(),
            JsonValue::Object(vec![
                ("code".to_owned(), JsonValue::Number(JsonNumber::Int(METHOD_NOT_FOUND))),
                ("message".to_owned(), JsonValue::Str("Method not found".to_owned())),
            ]),
        ),
    ]);
    assert_eq!(reply, expected);
}

#[test]
fn non_object_json_is_not_answered() {
    assert!(intercept_probe(b"[1,2,3]").is_none());
    assert!(intercept_probe(br#""server/discover""#).is_none());
}

#[test]
fn frame_line_appends_newline() {
    assert_eq!(frame_line(b"{}".to_vec()), b"{}\n".to_vec());
    assert_eq!(frame_line(vec![]), b"\n".to_vec());
}

// ── command line ──────────────────────────────────────────────────────

#[test]
fn no_arguments_use_the_default_config() {
    assert!(matches!(parse_cli_args(&args(&["stash-mcp"])), CliAction::Default));
    assert!(matches!(parse_cli_args(&args(&[])), CliAction::Default));
}

#[test]
fn config_flag_takes_next_argument() {
    match parse_cli_args(&args(&["stash-mcp", "--config", "/etc/stash.env"])) {
        CliAction::ConfigPath(p) => assert_eq!(p, "/etc/stash.env"),
        other => panic!("unexpected {other:?}"),
    }
    match parse_cli_args(&args(&["stash-mcp", "-v", "-c", "x.env", "--help"])) {
        CliAction::ConfigPath(p) => assert_eq!(p, "x.env"),
        other => panic!("unexpected {other:?}"),
    }
}

#[test]
fn config_flag_without_path_is_an_error() {
    assert!(matches!(parse_cli_args(&args(&["stash-mcp", "--config"])), CliAction::MissingConfigPath));
}

#[test]
fn help_flag_wins_when_first() {
    assert!(matches!(parse_cli_args(&args(&["stash-mcp", "-h", "--config", "a"])), CliAction::Help));
    assert!(matches!(parse_cli_args(&args(&["stash-mcp", "--help"])), CliAction::Help));
}

#[test]
fn program_name_is_not_an_option() {
    assert!(matches!(parse_cli_args(&args(&["--help"])), CliAction::Default));
}

#[test]
fn config_source_prefers_named_file_then_default_then_environment() {
    assert_eq!(config_source(Some("a.env".to_owned()), true), ConfigSource::File("a.env".to_owned()));
    assert_eq!(config_source(None, true), ConfigSource::File("stash.env".to_owned()));
    assert_eq!(config_source(None, false), ConfigSource::Environment);
}

#[test]
fn probe_reply_bytes_are_compact_json_and_a_newline() {
    let reply = intercept_probe(br#"{"method":"server/discover","id":5}"#).unwrap();
    assert_eq!(
        reply,
        b"{\"error\":{\"code\":-32601,\"message\":\"Method not found\"},\"id\":5,\"jsonrpc\":\"2.0\"}\n".to_vec()
    );
}
