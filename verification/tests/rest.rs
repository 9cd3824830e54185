use light_containerd::{State, Status};
use light_containerd::command::Output;
use light_containerd::container::Container;
use light_containerd::engine::{Creation, Engine};
use light_containerd::image::OciBundle;
use light_containerd::monitor::{Event, Handshake, Step};
use light_containerd::pipe::{StartPipe, SyncPipe};
use light_containerd::error::EngineError;
use light_containerd::json::{DecodeError, JsonValue, Key, Member};
use light_containerd::rest::{
    answer, bind_address, decode_name, handle_rejection, modify, percent_decode, to_filter, ErrorMsg,
    Rejection, Reply, Request, Transition, DEFAULT_PORT,
};

fn named(name: &str) -> String {
    name.to_string()
}

#[test]
fn put_on_a_container_creates_it() {
    assert_eq!(to_filter("PUT", "/containers/foo", b""), Ok(Request::Create(named("foo"))));
    assert_eq!(
        to_filter("PUT", "/containers/foo", b"{\"state\":\"paused\"}"),
        Ok(Request::Create(named("foo")))
    );
}

#[test]
fn get_on_a_container_asks_for_its_state() {
    assert_eq!(to_filter("GET", "/containers/foo", b""), Ok(Request::State(named("foo"))));
}

#[test]
fn delete_on_a_container_deletes_it() {
    assert_eq!(to_filter("DELETE", "/containers/foo", b""), Ok(Request::Delete(named("foo"))));
}

#[test]
fn put_on_the_status_pauses_or_resumes() {
    assert_eq!(
        to_filter("PUT", "/containers/foo/status", b"{\"state\":\"paused\"}"),
        Ok(Request::Pause(named("foo")))
    );
    assert_eq!(
        to_filter("PUT", "/containers/foo/status", b" { \"state\" : \"running\" } "),
        Ok(Request::Resume(named("foo")))
    );
}

#[test]
fn one_slash_at_the_end_is_overlooked() {
    assert_eq!(to_filter("GET", "/containers/foo/", b""), Ok(Request::State(named("foo"))));
    assert_eq!(
        to_filter("PUT", "/containers/foo/status/", b"{\"state\":\"paused\"}"),
        Ok(Request::Pause(named("foo")))
    );
    assert_eq!(to_filter("GET", "/containers/foo//", b""), Err(Rejection::NotFound));
}

#[test]
fn name_is_url_decoded() {
    assert_eq!(
        to_filter("PUT", "/containers/alpine%3A3.19", b""),
        Ok(Request::Create(named("alpine:3.19")))
    );
    assert_eq!(
        to_filter("GET", "/containers/library%2Fbusybox", b""),
        Ok(Request::State(named("library/busybox")))
    );
    assert_eq!(
        to_filter("GET", "/containers/caf%C3%A9", b""),
        Ok(Request::State(named("caf\u{e9}")))
    );
    assert_eq!(
        to_filter("GET", "/containers/100%", b""),
        Ok(Request::State(named("100%")))
    );
    assert_eq!(to_filter("GET", "/containers/%ff", b""), Err(Rejection::NotFound));
}

#[test]
fn escapes_are_replaced_by_their_bytes() {
    assert_eq!(percent_decode(b""), b"".to_vec());
    assert_eq!(percent_decode(b"plain"), b"plain".to_vec());
    assert_eq!(percent_decode(b"a%20b"), b"a b".to_vec());
    assert_eq!(percent_decode(b"%41%4a%4A%7e"), b"AJJ~".to_vec());
    assert_eq!(percent_decode(b"%00%ff%FF"), vec![0u8, 255, 255]);
    assert_eq!(percent_decode(b"%"), b"%".to_vec());
    assert_eq!(percent_decode(b"%4"), b"%4".to_vec());
    assert_eq!(percent_decode(b"%4g"), b"%4g".to_vec());
    assert_eq!(percent_decode(b"%g4"), b"%g4".to_vec());
    assert_eq!(percent_decode(b"%%41"), b"%A".to_vec());
    assert_eq!(percent_decode(b"%2541"), b"%41".to_vec());
    assert_eq!(percent_decode(b"x%3"), b"x%3".to_vec());
    assert_eq!(decode_name("a%2Fb"), Some(named("a/b")));
    assert_eq!(decode_name("%E2%82%AC"), Some(named("\u{20ac}")));
    assert_eq!(decode_name("%E2%82"), None);
}

#[test]
fn path_that_is_no_route_is_not_found() {
    for path in [
        "",
        "/",
        "/containers",
        "/containers/",
        "/containers//",
        "/containers//status",
        "/container/foo",
        "/Containers/foo",
        "containers/foo",
        "/containers/foo/bar",
        "/containers/foo/status/more",
        "/containers/foo/statuses",
        "/containers/foo/bar/status",
        "/v1/containers/foo",
    ] {
        for method in ["GET", "PUT", "DELETE", "POST"] {
            assert_eq!(to_filter(method, path, b"{\"state\":\"paused\"}"), Err(Rejection::NotFound));
        }
    }
}

#[test]
fn method_without_a_route_is_rejected() {
    for method in ["POST", "PATCH", "HEAD", "get", "put", ""] {
        assert_eq!(to_filter(method, "/containers/foo", b""), Err(Rejection::MethodNotAllowed));
    }
    for method in ["GET", "DELETE", "POST"] {
        assert_eq!(
            to_filter(method, "/containers/foo/status", b"{\"state\":\"paused\"}"),
            Err(Rejection::MethodNotAllowed)
        );
    }
}

#[test]
fn malformed_modify_body_is_rejected() {
    assert_eq!(
        to_filter("PUT", "/containers/foo/status", b"{\"state\":\"frozen\"}"),
        Err(Rejection::BodyDeserializeError(DecodeError::Invalid(Key::State)))
    );
    assert_eq!(
        to_filter("PUT", "/containers/foo/status", b"{}"),
        Err(Rejection::BodyDeserializeError(DecodeError::Missing(Key::State)))
    );
    assert_eq!(
        to_filter("PUT", "/containers/foo/status", b"{\"state\":1}"),
        Err(Rejection::BodyDeserializeError(DecodeError::Invalid(Key::State)))
    );
    assert_eq!(
        to_filter("PUT", "/containers/foo/status", b"{\"state\":\"Paused\"}"),
        Err(Rejection::BodyDeserializeError(DecodeError::Invalid(Key::State)))
    );
    assert_eq!(
        to_filter("PUT", "/containers/foo/status", b"{\"state\":\"paused\",\"force\":true}"),
        Err(Rejection::BodyDeserializeError(DecodeError::UnknownField))
    );
    assert_eq!(
        to_filter("PUT", "/containers/foo/status", b"{\"State\":\"paused\"}"),
        Err(Rejection::BodyDeserializeError(DecodeError::UnknownField))
    );
    for body in [&b""[..], b"paused", b"[\"paused\"]", b"{\"state\":\"paused\"", b"null"] {
        assert!(matches!(
            to_filter("PUT", "/containers/foo/status", body),
            Err(Rejection::BodyDeserializeError(DecodeError::Syntax { .. }))
        ));
    }
}

#[test]
fn malformed_modify_body_is_answered_with_400() {
    let rejection =
        to_filter("PUT", "/containers/foo/status", b"{\"state\":\"frozen\"}").unwrap_err();
    let reply = handle_rejection(rejection);
    assert_eq!(reply.status, 400);
    assert_eq!(
        reply.body,
        r#"{"code":400,"message":"Request body deserialize error: invalid value for field `state`"}"#
    );
    let syntax = to_filter("PUT", "/containers/foo/status", b"{").unwrap_err();
    let reply = handle_rejection(syntax);
    assert_eq!(reply.status, 400);
    assert!(reply.body.starts_with(r#"{"code":400,"message":"Request body deserialize error: "#));
}

#[test]
fn transition_is_read_from_members() {
    let paused = vec![Member { name: named("state"), value: JsonValue::Text(named("paused")) }];
    assert_eq!(Transition::from_members(&paused), Ok(Transition::Paused));
    let running = vec![Member { name: named("state"), value: JsonValue::Text(named("running")) }];
    assert_eq!(Transition::from_members(&running), Ok(Transition::Running));
    let twice = vec![
        Member { name: named("state"), value: JsonValue::Text(named("running")) },
        Member { name: named("state"), value: JsonValue::Text(named("paused")) },
    ];
    assert_eq!(Transition::from_members(&twice), Ok(Transition::Running));
    let unknown = vec![
        Member { name: named("state"), value: JsonValue::Text(named("running")) },
        Member { name: named("extra"), value: JsonValue::Null },
    ];
    assert_eq!(Transition::from_members(&unknown), Err(DecodeError::UnknownField));
    assert_eq!(Transition::from_members(&[]), Err(DecodeError::Missing(Key::State)));
}

#[test]
fn decoded_body_becomes_a_request() {
    assert_eq!(modify(named("foo"), Ok(Transition::Paused)), Ok(Request::Pause(named("foo"))));
    assert_eq!(modify(named("foo"), Ok(Transition::Running)), Ok(Request::Resume(named("foo"))));
    assert_eq!(
        modify(named("foo"), Err(DecodeError::UnknownField)),
        Err(Rejection::BodyDeserializeError(DecodeError::UnknownField))
    );
}

#[test]
fn unknown_container_is_answered_with_500() {
    let engine = Engine::new();
    let request = to_filter("GET", "/containers/ghost", b"").unwrap();
    assert_eq!(request, Request::State(named("ghost")));
    let error = engine.state("ghost").unwrap_err();
    let reply = handle_rejection(Rejection::EngineError(error));
    assert_eq!(reply.status, 500);
    assert_eq!(
        reply.body,
        r#"{"code":500,"message":"container \"ghost\" does not exist"}"#
    );
    let value: serde_json::Value = serde_json::from_str(&reply.body).unwrap();
    assert_eq!(
        value.get("message").and_then(|m| m.as_str()),
        Some("container \"ghost\" does not exist")
    );
    assert_eq!(value.get("code").and_then(|c| c.as_u64()), Some(500));
}

#[test]
fn missing_route_is_answered_with_404() {
    let reply = handle_rejection(to_filter("GET", "/nothing", b"").unwrap_err());
    assert_eq!(reply, Reply {
        status: 404,
        body: r#"{"code":404,"message":"Container not found"}"#.to_string(),
    });
}

#[test]
fn other_rejection_is_answered_with_500() {
    let reply = handle_rejection(to_filter("POST", "/containers/foo", b"").unwrap_err());
    assert_eq!(reply, Reply {
        status: 500,
        body: r#"{"code":500,"message":"UNHANDLED_REJECTION"}"#.to_string(),
    });
}

#[test]
fn engine_error_is_answered_with_its_message() {
    let reply = handle_rejection(Rejection::EngineError(EngineError::EmptySpec));
    assert_eq!(reply.status, 500);
    assert_eq!(
        reply.body,
        r#"{"code":500,"message":"container specification cannot be empty"}"#
    );
}

#[test]
fn error_message_is_written_as_json() {
    let msg = ErrorMsg { code: 418, message: "say \"hi\"\n".to_string() };
    assert_eq!(msg.to_json(), r#"{"code":418,"message":"say \"hi\"\n"}"#);
}

#[test]
fn success_is_answered_with_200() {
    assert_eq!(Reply::empty(), Reply { status: 200, body: String::new() });
    let state = State {
        id: named("foo"),
        status: Status::Paused { pid: 12 },
        bundle: named("/tmp/b/bundle"),
    };
    assert_eq!(Reply::json(&state), Reply {
        status: 200,
        body: r#"{"id":"foo","status":"paused","pid":12,"bundle":"/tmp/b/bundle"}"#.to_string(),
    });
}

#[test]
fn engine_listens_on_the_local_host() {
    assert_eq!(DEFAULT_PORT, 8080);
    assert_eq!(bind_address(DEFAULT_PORT), "127.0.0.1:8080");
    assert_eq!(bind_address(0), "127.0.0.1:0");
    assert_eq!(bind_address(u16::MAX), "127.0.0.1:65535");
    assert_eq!(bind_address(3000), "127.0.0.1:3000");
}

#[test]
fn outcome_of_the_engine_is_answered() {
    assert_eq!(answer(Ok(None)), Reply { status: 200, body: String::new() });
    let state = State { id: named("foo"), status: Status::Creating, bundle: named("/b") };
    assert_eq!(
        answer(Ok(Some(state))),
        Reply { status: 200, body: r#"{"id":"foo","status":"creating","bundle":"/b"}"#.to_string() }
    );
    assert_eq!(
        answer(Err(EngineError::NotFound { name: named("ghost") })),
        Reply {
            status: 500,
            body: r#"{"code":500,"message":"container \"ghost\" does not exist"}"#.to_string(),
        }
    );
}

#[test]
fn put_twice_creates_once() {
    let mut engine = Engine::new();
    let mut statuses = Vec::new();
    let mut begun = 0;
    for _ in 0..2 {
        let request = to_filter("PUT", "/containers/foo", b"").unwrap();
        assert_eq!(request, Request::Create(named("foo")));
        match engine.create("foo").unwrap() {
            Creation::Begin(flow, _) => {
                begun += 1;
                assert_eq!(flow.name(), "foo");
                assert_eq!(engine.register(made("foo")), None);
            }
            Creation::Exists => {}
        }
        statuses.push(answer(Ok(None)).status);
    }
    assert_eq!(statuses, vec![200, 200]);
    assert_eq!(begun, 1);
    assert_eq!(engine.len(), 1);
}

fn made(name: &str) -> Container {
    let bundle = OciBundle::unpack_from("/tmp/image", "/tmp/base").0;
    let (mut handshake, _) = Handshake::begin(
        name,
        "0f8fad5b-d9cb-469f-a165-70867728950e",
        bundle,
        &StartPipe::new(10, 11),
        &SyncPipe::new(12, 13),
    );
    let events = vec![
        Event::ReadySent,
        Event::Exited(Output { success: true, stdout: Vec::new(), stderr: Vec::new() }),
        Event::SyncLine(b"{\"pid\":1}".to_vec()),
        Event::Attached,
    ];
    for event in events {
        match handshake.step(event) {
            Step::Next(next, _) => handshake = next,
            Step::Done(container) => return container,
            Step::Abort(e) => panic!("{:?}", e),
        }
    }
    unreachable!()
}
