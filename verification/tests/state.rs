use light_containerd::state::{State, Status};
use light_containerd::json::{
    parse_object, render_object, DecodeError, JsonValue, Key, Member,
};

fn state_json(pairs: Vec<(&str, serde_json::Value)>) -> Vec<u8> {
    let mut map = serde_json::Map::new();
    for (name, value) in pairs {
        map.insert(name.to_string(), value);
    }
    serde_json::to_vec(&serde_json::Value::Object(map)).unwrap()
}

fn text(s: &str) -> serde_json::Value {
    serde_json::Value::from(s)
}

fn sample(status: Status) -> State {
    State { id: "busybox".to_string(), status, bundle: "/tmp/x/bundle".to_string() }
}

#[test]
fn parses_creating_state() {
    let bytes = state_json(vec![
        ("id", text("busybox")),
        ("status", text("creating")),
        ("bundle", text("/tmp/.tmpL0EsKy/bundle")),
    ]);
    let state = State::from_slice(&bytes).unwrap();
    assert_eq!(state.id, "busybox");
    assert_eq!(state.status, Status::Creating);
    assert_eq!(state.bundle, "/tmp/.tmpL0EsKy/bundle");
}

#[test]
fn parses_created_state() {
    let bytes = state_json(vec![
        ("id", text("busybox")),
        ("status", text("created")),
        ("pid", serde_json::Value::from(168495)),
        ("bundle", text("/tmp/.tmpL0EsKy/bundle")),
    ]);
    let state = State::from_slice(&bytes).unwrap();
    assert_eq!(state.id, "busybox");
    assert_eq!(state.status, Status::Created { pid: 168495 });
    assert_eq!(state.bundle, "/tmp/.tmpL0EsKy/bundle");
}

#[test]
fn parses_running_state() {
    let bytes = state_json(vec![
        ("id", text("busybox")),
        ("status", text("running")),
        ("pid", serde_json::Value::from(168495)),
        ("bundle", text("/tmp/.tmpL0EsKy/bundle")),
    ]);
    let state = State::from_slice(&bytes).unwrap();
    assert_eq!(state.id, "busybox");
    assert_eq!(state.status, Status::Running { pid: 168495 });
    assert_eq!(state.bundle, "/tmp/.tmpL0EsKy/bundle");
}

#[test]
fn parses_paused_state() {
    let bytes = state_json(vec![
        ("id", text("busybox")),
        ("status", text("paused")),
        ("pid", serde_json::Value::from(168495)),
        ("bundle", text("/tmp/.tmpL0EsKy/bundle")),
    ]);
    let state = State::from_slice(&bytes).unwrap();
    assert_eq!(state.id, "busybox");
    assert_eq!(state.status, Status::Paused { pid: 168495 });
    assert_eq!(state.bundle, "/tmp/.tmpL0EsKy/bundle");
}

#[test]
fn parses_stopped_state() {
    let bytes = state_json(vec![
        ("id", text("busybox")),
        ("status", text("stopped")),
        ("exit_code", serde_json::Value::from(0)),
        ("pid", serde_json::Value::from(168495)),
        ("bundle", text("/tmp/.tmpL0EsKy/bundle")),
    ]);
    let state = State::from_slice(&bytes).unwrap();
    assert_eq!(state.id, "busybox");
    assert_eq!(state.status, Status::Stopped { exit_code: 0 });
    assert_eq!(state.bundle, "/tmp/.tmpL0EsKy/bundle");
}

#[test]
fn parses_creating_state_from_literal_text() {
    let input = br#"{"id":"busybox","status":"creating","bundle":"/tmp/x/bundle"}"#;
    assert_eq!(State::from_slice(input), Ok(sample(Status::Creating)));
}

#[test]
fn parses_running_state_from_literal_text() {
    let input = br#"{"id":"busybox","status":"running","pid":168495,"bundle":"/tmp/x/bundle"}"#;
    assert_eq!(State::from_slice(input), Ok(sample(Status::Running { pid: 168495 })));
}

#[test]
fn parses_stopped_state_and_ignores_extra_pid() {
    let input =
        br#"{"id":"busybox","status":"stopped","exit_code":0,"pid":168495,"bundle":"/tmp/x/bundle"}"#;
    assert_eq!(State::from_slice(input), Ok(sample(Status::Stopped { exit_code: 0 })));
}

#[test]
fn parses_state_with_whitespace_and_unknown_members() {
    let input = b" { \"bundle\" : \"/b\", \"extra\": [1, {\"a\": null}], \"ratio\": 1.5,\n \"id\": \"x\", \"status\": \"paused\", \"pid\": 7 }\n";
    assert_eq!(
        State::from_slice(input),
        Ok(State { id: "x".to_string(), status: Status::Paused { pid: 7 }, bundle: "/b".to_string() })
    );
}

#[test]
fn writes_each_status_in_the_flat_shape() {
    assert_eq!(
        sample(Status::Creating).to_json(),
        r#"{"id":"busybox","status":"creating","bundle":"/tmp/x/bundle"}"#
    );
    assert_eq!(
        sample(Status::Created { pid: 1 }).to_json(),
        r#"{"id":"busybox","status":"created","pid":1,"bundle":"/tmp/x/bundle"}"#
    );
    assert_eq!(
        sample(Status::Running { pid: 168495 }).to_json(),
        r#"{"id":"busybox","status":"running","pid":168495,"bundle":"/tmp/x/bundle"}"#
    );
    assert_eq!(
        sample(Status::Paused { pid: u64::MAX }).to_json(),
        r#"{"id":"busybox","status":"paused","pid":18446744073709551615,"bundle":"/tmp/x/bundle"}"#
    );
    assert_eq!(
        sample(Status::Stopped { exit_code: -9 }).to_json(),
        r#"{"id":"busybox","status":"stopped","exit_code":-9,"bundle":"/tmp/x/bundle"}"#
    );
}

#[test]
fn state_survives_encoding_and_decoding() {
    let statuses = vec![
        Status::Creating,
        Status::Created { pid: 0 },
        Status::Created { pid: 168495 },
        Status::Running { pid: 1 },
        Status::Running { pid: u64::MAX },
        Status::Paused { pid: 42 },
        Status::Stopped { exit_code: 0 },
        Status::Stopped { exit_code: 137 },
        Status::Stopped { exit_code: -1 },
        Status::Stopped { exit_code: i64::MIN },
        Status::Stopped { exit_code: i64::MAX },
    ];
    for status in statuses {
        let state = State {
            id: "we\"ird\\ id \u{e9}\n".to_string(),
            status,
            bundle: "/tmp/\u{1F600}/bundle".to_string(),
        };
        let json = state.to_json();
        assert_eq!(State::from_slice(json.as_bytes()), Ok(state.clone()));
        assert_eq!(State::from_members(&state.to_members()), Ok(state));
    }
}

#[test]
fn written_state_is_what_serde_json_reads() {
    let json = sample(Status::Stopped { exit_code: -3 }).to_json();
    let value: serde_json::Value = serde_json::from_str(&json).unwrap();
    assert_eq!(value.get("id"), Some(&text("busybox")));
    assert_eq!(value.get("status"), Some(&text("stopped")));
    assert_eq!(value.get("exit_code"), Some(&serde_json::Value::from(-3)));
    assert_eq!(value.get("bundle"), Some(&text("/tmp/x/bundle")));
    assert_eq!(value.get("pid"), None);
    assert_eq!(value.as_object().unwrap().len(), 4);
}

#[test]
fn state_needs_id_status_and_bundle() {
    assert_eq!(
        State::from_slice(br#"{"status":"creating","bundle":"/b"}"#),
        Err(DecodeError::Missing(Key::Id))
    );
    assert_eq!(
        State::from_slice(br#"{"id":"x","bundle":"/b"}"#),
        Err(DecodeError::Missing(Key::Status))
    );
    assert_eq!(
        State::from_slice(br#"{"id":"x","status":"creating"}"#),
        Err(DecodeError::Missing(Key::Bundle))
    );
    assert_eq!(
        State::from_slice(br#"{"id":"x","status":"running","bundle":"/b"}"#),
        Err(DecodeError::Missing(Key::Pid))
    );
    assert_eq!(
        State::from_slice(br#"{"id":"x","status":"stopped","pid":3,"bundle":"/b"}"#),
        Err(DecodeError::Missing(Key::ExitCode))
    );
}

#[test]
fn state_refuses_values_of_the_wrong_kind() {
    assert_eq!(
        State::from_slice(br#"{"id":7,"status":"creating","bundle":"/b"}"#),
        Err(DecodeError::Invalid(Key::Id))
    );
    assert_eq!(
        State::from_slice(br#"{"id":"x","status":"frozen","bundle":"/b"}"#),
        Err(DecodeError::Invalid(Key::Status))
    );
    assert_eq!(
        State::from_slice(br#"{"id":"x","status":"Running","pid":1,"bundle":"/b"}"#),
        Err(DecodeError::Invalid(Key::Status))
    );
    assert_eq!(
        State::from_slice(br#"{"id":"x","status":null,"bundle":"/b"}"#),
        Err(DecodeError::Invalid(Key::Status))
    );
    assert_eq!(
        State::from_slice(br#"{"id":"x","status":"running","pid":-1,"bundle":"/b"}"#),
        Err(DecodeError::Invalid(Key::Pid))
    );
    assert_eq!(
        State::from_slice(br#"{"id":"x","status":"running","pid":1.0,"bundle":"/b"}"#),
        Err(DecodeError::Invalid(Key::Pid))
    );
    assert_eq!(
        State::from_slice(br#"{"id":"x","status":"running","pid":"1","bundle":"/b"}"#),
        Err(DecodeError::Invalid(Key::Pid))
    );
    assert_eq!(
        State::from_slice(br#"{"id":"x","status":"running","pid":18446744073709551616,"bundle":"/b"}"#),
        Err(DecodeError::Invalid(Key::Pid))
    );
    assert_eq!(
        State::from_slice(br#"{"id":"x","status":"stopped","exit_code":9223372036854775808,"bundle":"/b"}"#),
        Err(DecodeError::Invalid(Key::ExitCode))
    );
    assert_eq!(
        State::from_slice(br#"{"id":"x","status":"creating","bundle":["/b"]}"#),
        Err(DecodeError::Invalid(Key::Bundle))
    );
}

#[test]
fn state_accepts_the_limits_of_its_numbers() {
    assert_eq!(
        State::from_slice(br#"{"id":"x","status":"created","pid":18446744073709551615,"bundle":"/b"}"#)
            .unwrap()
            .status,
        Status::Created { pid: u64::MAX }
    );
    assert_eq!(
        State::from_slice(br#"{"id":"x","status":"stopped","exit_code":-9223372036854775808,"bundle":"/b"}"#)
            .unwrap()
            .status,
        Status::Stopped { exit_code: i64::MIN }
    );
    assert_eq!(
        State::from_slice(br#"{"id":"x","status":"stopped","exit_code":9223372036854775807,"bundle":"/b"}"#)
            .unwrap()
            .status,
        Status::Stopped { exit_code: i64::MAX }
    );
}

#[test]
fn text_that_is_no_object_is_a_syntax_error() {
    for input in [&b""[..], b"null", b"[]", b"\"x\"", b"{", b"{\"id\":}", b"{} trailing", b"\xff"] {
        assert!(matches!(State::from_slice(input), Err(DecodeError::Syntax { .. })));
        assert!(matches!(parse_object(input), Err(DecodeError::Syntax { .. })));
    }
}

#[test]
fn status_is_read_from_members() {
    let members = vec![
        Member { name: "pid".to_string(), value: JsonValue::Unsigned(5) },
        Member { name: "status".to_string(), value: JsonValue::Text("running".to_string()) },
    ];
    assert_eq!(Status::from_members(&members), Ok(Status::Running { pid: 5 }));
    let stopped = vec![
        Member { name: "status".to_string(), value: JsonValue::Text("stopped".to_string()) },
        Member { name: "exit_code".to_string(), value: JsonValue::Negative(-2) },
    ];
    assert_eq!(Status::from_members(&stopped), Ok(Status::Stopped { exit_code: -2 }));
    assert_eq!(Status::from_members(&[]), Err(DecodeError::Missing(Key::Status)));
}

#[test]
fn the_first_of_two_members_of_one_name_counts() {
    let members = vec![
        Member { name: "status".to_string(), value: JsonValue::Text("paused".to_string()) },
        Member { name: "pid".to_string(), value: JsonValue::Unsigned(1) },
        Member { name: "pid".to_string(), value: JsonValue::Unsigned(2) },
    ];
    assert_eq!(Status::from_members(&members), Ok(Status::Paused { pid: 1 }));
}

#[test]
fn parser_hands_out_every_kind_of_value() {
    let members = parse_object(
        r#"{"a":null,"b":true,"c":12,"d":-12,"e":"t\u00e9xt","f":1.5,"g":[1,"x"],"h":{"k":false},"i":18446744073709551615}"#
            .as_bytes(),
    )
    .unwrap();
    let find = |name: &str| {
        members.iter().find(|m| m.name == name).map(|m| m.value.clone()).unwrap()
    };
    assert_eq!(members.len(), 9);
    assert!(matches!(find("a"), JsonValue::Null));
    assert!(matches!(find("b"), JsonValue::Bool(true)));
    assert!(matches!(find("c"), JsonValue::Unsigned(12)));
    assert!(matches!(find("d"), JsonValue::Negative(-12)));
    assert!(matches!(find("e"), JsonValue::Text(s) if s == "t\u{e9}xt"));
    assert!(matches!(find("f"), JsonValue::Raw(s) if s == "1.5"));
    assert!(matches!(find("g"), JsonValue::Raw(s) if s == r#"[1,"x"]"#));
    assert!(matches!(find("h"), JsonValue::Raw(s) if s == r#"{"k":false}"#));
    assert!(matches!(find("i"), JsonValue::Unsigned(u64::MAX)));
}

#[test]
fn object_is_written_in_the_order_given() {
    let members = vec![
        Member { name: "z".to_string(), value: JsonValue::Null },
        Member { name: "a b".to_string(), value: JsonValue::Bool(false) },
        Member { name: "q\"".to_string(), value: JsonValue::Text("line\nbreak".to_string()) },
        Member { name: "n".to_string(), value: JsonValue::Negative(-5) },
        Member { name: "u".to_string(), value: JsonValue::Unsigned(0) },
        Member { name: "r".to_string(), value: JsonValue::Raw("[1,2]".to_string()) },
    ];
    assert_eq!(
        render_object(&members),
        r#"{"z":null,"a b":false,"q\"":"line\nbreak","n":-5,"u":0,"r":[1,2]}"#
    );
    assert_eq!(render_object(&[]), "{}");
}

#[test]
fn decode_errors_have_messages() {
    assert_eq!(DecodeError::Missing(Key::Id).message(), "missing field `id`");
    assert_eq!(DecodeError::Invalid(Key::ExitCode).message(), "invalid value for field `exit_code`");
    assert_eq!(DecodeError::UnknownField.message(), "unknown field");
    assert_eq!(DecodeError::Syntax { message: "bad".to_string() }.message(), "bad");
    let syntax = parse_object(b"{").unwrap_err();
    assert!(!syntax.message().is_empty());
}
