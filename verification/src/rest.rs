//! The engine's HTTP surface: which request asks for what, and how results
//! and failures are answered.
//!
//! | Method   | Path                        | Body                   | Asks for     |
//! |----------|-----------------------------|------------------------|--------------|
//! | `PUT`    | `/containers/<name>`        |                        | create       |
//! | `GET`    | `/containers/<name>`        |                        | state        |
//! | `DELETE` | `/containers/<name>`        |                        | delete       |
//! | `PUT`    | `/containers/<name>/status` | `{"state":"paused"}`   | pause        |
//! | `PUT`    | `/containers/<name>/status` | `{"state":"running"}`  | resume       |

use vstd::prelude::*;
use vstd::utf8::{
    encode_utf8, encode_utf8_decode_utf8, encode_utf8_valid_utf8, is_ascii_chars,
    is_ascii_chars_encode_utf8,
};
use crate::state::{state_members, State};
use crate::error::{error_text, EngineError, ErrorView};
use crate::json::{
    decode_error_text, key_text, members_view, object_text, parse_object, parsed_object,
    render_object, text_at, text_field, Datum, DecodeError, JsonValue, Key, Member,
};
use crate::text::{
    concat2, decimal, find_char, first_index, lemma_first_index, same_text, text_of, u64_text,
    utf8_text,
};

verus! {

/// The value of a digit to base 16, in either case.
pub open spec fn hex_value(b: u8) -> Option<u8> {
    if 48 <= b <= 57 {
        Some((b - 48) as u8)
    } else if 97 <= b <= 102 {
        Some((b - 87) as u8)
    } else if 65 <= b <= 70 {
        Some((b - 55) as u8)
    } else {
        None
    }
}

/// Whether `s` begins with an escape: a percent sign and two digits to base
/// 16.
pub open spec fn begins_with_escape(s: Seq<u8>) -> bool {
    s.len() >= 3 && s[0] == 37 && hex_value(s[1]) is Some && hex_value(s[2]) is Some
}

/// `s` with every escape replaced by the byte that it stands for. A percent
/// sign that begins no escape stays as it is.
pub open spec fn percent_decoded(s: Seq<u8>) -> Seq<u8>
    decreases s.len(),
{
    if s.len() == 0 {
        Seq::empty()
    } else if begins_with_escape(s) {
        seq![(hex_value(s[1])->Some_0 * 16 + hex_value(s[2])->Some_0) as u8] + percent_decoded(
            s.skip(3),
        )
    } else {
        seq![s[0]] + percent_decoded(s.skip(1))
    }
}

fn hex_digit(b: u8) -> (r: Option<u8>)
    ensures
        r == hex_value(b),
        r matches Some(v) ==> v < 16,
{
    if 48 <= b && b <= 57 {
        Some(b - 48)
    } else if 97 <= b && b <= 102 {
        Some(b - 87)
    } else if 65 <= b && b <= 70 {
        Some(b - 55)
    } else {
        None
    }
}

/// Replaces every escape in `bytes` by the byte that it stands for.
pub fn percent_decode(bytes: &[u8]) -> (r: Vec<u8>)
    ensures
        r@ == percent_decoded(bytes@),
{
    let n = bytes.len();
    let mut out: Vec<u8> = Vec::new();
    let mut i: usize = 0;
    assert(bytes@.skip(0) =~= bytes@);
    while i < n
        invariant
            i <= n,
            n == bytes@.len(),
            percent_decoded(bytes@) == out@ + percent_decoded(bytes@.skip(i as int)),
        decreases n - i,
    {
        let ghost rest = bytes@.skip(i as int);
        let ghost before = out@;
        assert(rest[0] == bytes@[i as int]);
        let mut escaped: Option<u8> = None;
        if bytes[i] == 37 && n - i >= 3 {
            assert(rest[1] == bytes@[i + 1]);
            assert(rest[2] == bytes@[i + 2]);
            match (hex_digit(bytes[i + 1]), hex_digit(bytes[i + 2])) {
                (Some(high), Some(low)) => {
                    escaped = Some(high * 16 + low);
                },
                _ => {},
            }
        }
        match escaped {
            Some(byte) => {
                out.push(byte);
                i += 3;
                assert(begins_with_escape(rest));
                assert(rest.skip(3) =~= bytes@.skip(i as int));
                assert(out@ + percent_decoded(rest.skip(3)) =~= before + (seq![byte]
                    + percent_decoded(rest.skip(3))));
            },
            None => {
                out.push(bytes[i]);
                i += 1;
                assert(!begins_with_escape(rest));
                assert(rest.skip(1) =~= bytes@.skip(i as int));
                assert(out@ + percent_decoded(rest.skip(1)) =~= before + (seq![rest[0]]
                    + percent_decoded(rest.skip(1))));
            },
        }
    }
    assert(bytes@.skip(n as int) =~= Seq::<u8>::empty());
    assert(out@ + Seq::<u8>::empty() =~= out@);
    out
}

/// The name that a path segment stands for: its escapes replaced, and the
/// bytes read as UTF-8. A segment whose bytes are then no text stands for
/// no name.
pub open spec fn decoded_name(segment: Seq<char>) -> Option<Seq<char>> {
    text_of(percent_decoded(encode_utf8(segment)))
}

/// Bytes among which there is no percent sign stay as they are.
pub proof fn lemma_plain_bytes_stay(s: Seq<u8>)
    requires
        forall|i: int| 0 <= i < s.len() ==> s[i] != 37,
    ensures
        percent_decoded(s) == s,
    decreases s.len(),
{
    if s.len() > 0 {
        let rest = s.skip(1);
        assert forall|i: int| 0 <= i < rest.len() implies rest[i] != 37 by {
            assert(rest[i] == s[i + 1]);
        }
        lemma_plain_bytes_stay(rest);
        assert(s =~= seq![s[0]] + rest);
    }
}

/// A segment that is written in ASCII and holds no percent sign stands for
/// itself.
pub proof fn lemma_plain_name_stands_for_itself(segment: Seq<char>)
    requires
        is_ascii_chars(segment),
        !segment.contains('%'),
    ensures
        decoded_name(segment) == Some(segment),
{
    is_ascii_chars_encode_utf8(segment);
    encode_utf8_valid_utf8(segment);
    encode_utf8_decode_utf8(segment);
    let bytes = encode_utf8(segment);
    assert forall|i: int| 0 <= i < bytes.len() implies bytes[i] != 37 by {
        assert(segment[i] as u8 == bytes[i]);
        assert(segment.contains(segment[i]));
    }
    lemma_plain_bytes_stay(bytes);
}

/// Decodes a path segment.
pub fn decode_name(segment: &str) -> (r: Option<String>)
    ensures
        match r {
            Some(name) => decoded_name(segment@) == Some(name@),
            None => decoded_name(segment@) is None,
        },
{
    let decoded = percent_decode(segment.as_bytes());
    utf8_text(decoded.as_slice())
}

/// What a path points at.
pub enum TargetView {
    /// `/containers/<name>`
    Container(Seq<char>),
    /// `/containers/<name>/status`
    Status(Seq<char>),
}

/// What `path` points at, with the name as it is written in the path. One
/// slash at the end of the path is overlooked; an empty name points at
/// nothing.
pub open spec fn target_of(path: Seq<char>) -> Option<TargetView> {
    let prefix = "/containers/"@;
    if path.len() < prefix.len() || path.take(prefix.len() as int) != prefix {
        None
    } else {
        let rest = path.skip(prefix.len() as int);
        let at = first_index(rest, '/');
        let segment = rest.take(at);
        let tail = rest.skip(at);
        if segment.len() == 0 {
            None
        } else if tail.len() == 0 || tail == "/"@ {
            Some(TargetView::Container(segment))
        } else if tail == "/status"@ || tail == "/status/"@ {
            Some(TargetView::Status(segment))
        } else {
            None
        }
    }
}

/// The name in a path is one segment that is not empty: it holds no slash,
/// and the path holds nothing behind it but `/status` where the status is
/// pointed at, and perhaps one more slash.
pub proof fn lemma_name_is_one_segment(path: Seq<char>)
    ensures
        target_of(path) matches Some(TargetView::Container(segment)) ==> segment.len() > 0
            && !segment.contains('/') && (path == "/containers/"@ + segment || path
            == "/containers/"@ + segment + "/"@),
        target_of(path) matches Some(TargetView::Status(segment)) ==> segment.len() > 0
            && !segment.contains('/') && (path == "/containers/"@ + segment + "/status"@ || path
            == "/containers/"@ + segment + "/status/"@),
{
    let prefix = "/containers/"@;
    if target_of(path) is Some {
        let rest = path.skip(prefix.len() as int);
        let at = first_index(rest, '/');
        let segment = rest.take(at);
        let tail = rest.skip(at);
        lemma_first_index(rest, '/');
        assert(path =~= prefix + rest);
        assert(rest =~= segment + tail);
        assert(path =~= prefix + segment + tail);
        if segment.contains('/') {
            let k = choose|k: int| 0 <= k < segment.len() && segment[k] == '/';
            assert(rest[k] == '/');
        }
        if tail.len() == 0 {
            assert(path =~= prefix + segment);
        }
    }
}

/// A change of state that a client may ask for.
#[derive(Debug, Clone, Copy, PartialEq, Eq)]
pub enum Transition {
    /// Pause a running container.
    Paused,
    /// Let a paused container go on.
    Running,
}

/// Whether every member is named `state`.
pub open spec fn only_state(members: Seq<(Seq<char>, Datum)>) -> bool {
    forall|i: int| 0 <= i < members.len() ==> (#[trigger] members[i]).0 == key_text(Key::State)
}

/// The transition that the body of a request spells out: an object with the
/// one member `state`, which is `paused` or `running`. Any other member is
/// refused.
pub open spec fn decode_modify(members: Seq<(Seq<char>, Datum)>) -> Result<
    Transition,
    DecodeError,
> {
    if !only_state(members) {
        Err(DecodeError::UnknownField)
    } else {
        match text_at(members, Key::State) {
            Err(e) => Err(e),
            Ok(word) => if word == "paused"@ {
                Ok(Transition::Paused)
            } else if word == "running"@ {
                Ok(Transition::Running)
            } else {
                Err(DecodeError::Invalid(Key::State))
            },
        }
    }
}

impl Transition {
    /// Reads a transition from the members of a request body.
    pub fn from_members(members: &[Member]) -> (r: Result<Transition, DecodeError>)
        ensures
            r == decode_modify(members_view(members@)),
    {
        let mut i: usize = 0;
        while i < members.len()
            invariant
                i <= members.len(),
                forall|k: int|
                    0 <= k < i ==> (#[trigger] members_view(members@)[k]).0 == key_text(
                        Key::State,
                    ),
            decreases members.len() - i,
        {
            if !same_text(members[i].name.as_str(), "state") {
                assert(members_view(members@)[i as int].0 != key_text(Key::State));
                return Err(DecodeError::UnknownField);
            }
            i += 1;
        }
        let word = match text_field(members, Key::State) {
            Ok(word) => word,
            Err(e) => {
                return Err(e);
            },
        };
        if same_text(word.as_str(), "paused") {
            Ok(Transition::Paused)
        } else if same_text(word.as_str(), "running") {
            Ok(Transition::Running)
        } else {
            Err(DecodeError::Invalid(Key::State))
        }
    }
}

/// What a client asks of the engine.
#[derive(Debug, Clone, PartialEq, Eq)]
pub enum Request {
    Create(String),
    State(String),
    Delete(String),
    Pause(String),
    Resume(String),
}

/// What a [`Request`] stands for.
pub enum RequestView {
    Create(Seq<char>),
    State(Seq<char>),
    Delete(Seq<char>),
    Pause(Seq<char>),
    Resume(Seq<char>),
}

impl View for Request {
    type V = RequestView;

    open spec fn view(&self) -> RequestView {
        match self {
            Request::Create(name) => RequestView::Create(name@),
            Request::State(name) => RequestView::State(name@),
            Request::Delete(name) => RequestView::Delete(name@),
            Request::Pause(name) => RequestView::Pause(name@),
            Request::Resume(name) => RequestView::Resume(name@),
        }
    }
}

/// Why a request is not carried out.
#[derive(Debug, Clone, PartialEq, Eq)]
pub enum Rejection {
    /// The path points at nothing.
    NotFound,
    /// The path points at something that the method does not apply to.
    MethodNotAllowed,
    /// The body of the request could not be decoded.
    BodyDeserializeError(DecodeError),
    /// The engine failed to do what was asked.
    EngineError(EngineError),
}

/// Why a body was not decoded, without the parser's own words.
pub enum BodyFault {
    Syntax,
    Missing(Key),
    Invalid(Key),
    UnknownField,
}

/// The kind of a decoding error.
pub open spec fn body_fault(e: DecodeError) -> BodyFault {
    match e {
        DecodeError::Syntax { .. } => BodyFault::Syntax,
        DecodeError::Missing(key) => BodyFault::Missing(key),
        DecodeError::Invalid(key) => BodyFault::Invalid(key),
        DecodeError::UnknownField => BodyFault::UnknownField,
    }
}

/// What a [`Rejection`] stands for.
pub enum RejectionView {
    NotFound,
    MethodNotAllowed,
    BodyDeserializeError(BodyFault),
    EngineError(ErrorView),
}

impl View for Rejection {
    type V = RejectionView;

    open spec fn view(&self) -> RejectionView {
        match self {
            Rejection::NotFound => RejectionView::NotFound,
            Rejection::MethodNotAllowed => RejectionView::MethodNotAllowed,
            Rejection::BodyDeserializeError(e) => RejectionView::BodyDeserializeError(
                body_fault(*e),
            ),
            Rejection::EngineError(e) => RejectionView::EngineError(e@),
        }
    }
}

/// What the body of a status request asks for, given what the parser makes
/// of it.
pub open spec fn modify_of(name: Seq<char>, body: Option<Seq<(Seq<char>, Datum)>>) -> Result<
    RequestView,
    RejectionView,
> {
    match body {
        None => Err(RejectionView::BodyDeserializeError(BodyFault::Syntax)),
        Some(members) => match decode_modify(members) {
            Ok(Transition::Paused) => Ok(RequestView::Pause(name)),
            Ok(Transition::Running) => Ok(RequestView::Resume(name)),
            Err(e) => Err(RejectionView::BodyDeserializeError(body_fault(e))),
        },
    }
}

/// What a request asks for: the routes of the engine. `body` is what the
/// parser makes of the request's body.
pub open spec fn routed(
    method: Seq<char>,
    path: Seq<char>,
    body: Option<Seq<(Seq<char>, Datum)>>,
) -> Result<RequestView, RejectionView> {
    match target_of(path) {
        None => Err(RejectionView::NotFound),
        Some(TargetView::Container(segment)) => match decoded_name(segment) {
            None => Err(RejectionView::NotFound),
            Some(name) => if method == "PUT"@ {
                Ok(RequestView::Create(name))
            } else if method == "GET"@ {
                Ok(RequestView::State(name))
            } else if method == "DELETE"@ {
                Ok(RequestView::Delete(name))
            } else {
                Err(RejectionView::MethodNotAllowed)
            },
        },
        Some(TargetView::Status(segment)) => match decoded_name(segment) {
            None => Err(RejectionView::NotFound),
            Some(name) => if method == "PUT"@ {
                modify_of(name, body)
            } else {
                Err(RejectionView::MethodNotAllowed)
            },
        },
    }
}

/// What the decoded body of a status request for `name` asks for.
pub fn modify(name: String, body: Result<Transition, DecodeError>) -> (r: Result<
    Request,
    Rejection,
>)
    ensures
        match body {
            Ok(Transition::Paused) => r == Ok::<Request, Rejection>(Request::Pause(name)),
            Ok(Transition::Running) => r == Ok::<Request, Rejection>(Request::Resume(name)),
            Err(e) => r == Err::<Request, Rejection>(Rejection::BodyDeserializeError(e)),
        },
{
    match body {
        Ok(Transition::Paused) => Ok(Request::Pause(name)),
        Ok(Transition::Running) => Ok(Request::Resume(name)),
        Err(e) => Err(Rejection::BodyDeserializeError(e)),
    }
}

/// Finds what a request asks of the engine, from its method, the path of its
/// URL and its body.
pub fn to_filter(method: &str, path: &str, body: &[u8]) -> (r: Result<Request, Rejection>)
    ensures
        match r {
            Ok(request) => routed(method@, path@, parsed_object(body@)) == Ok::<
                RequestView,
                RejectionView,
            >(request@),
            Err(rejection) => routed(method@, path@, parsed_object(body@)) == Err::<
                RequestView,
                RejectionView,
            >(rejection@),
        },
{
    proof {
        reveal_strlit("/containers/");
        reveal_strlit("/");
        reveal_strlit("/status");
        reveal_strlit("/status/");
    }
    let len = path.unicode_len();
    if len < 12 || !same_text(path.substring_char(0, 12), "/containers/") {
        return Err(Rejection::NotFound);
    }
    let rest = path.substring_char(12, len);
    let rest_len = len - 12;
    let at = find_char(rest, '/');
    let segment = rest.substring_char(0, at);
    let tail = rest.substring_char(at, rest_len);
    if at == 0 {
        return Err(Rejection::NotFound);
    }
    let plain = at == rest_len || same_text(tail, "/");
    let status = same_text(tail, "/status") || same_text(tail, "/status/");
    if !plain && !status {
        return Err(Rejection::NotFound);
    }
    let name = match decode_name(segment) {
        Some(name) => name,
        None => {
            return Err(Rejection::NotFound);
        },
    };
    if plain {
        if same_text(method, "PUT") {
            Ok(Request::Create(name))
        } else if same_text(method, "GET") {
            Ok(Request::State(name))
        } else if same_text(method, "DELETE") {
            Ok(Request::Delete(name))
        } else {
            Err(Rejection::MethodNotAllowed)
        }
    } else if same_text(method, "PUT") {
        match parse_object(body) {
            Ok(members) => modify(name, Transition::from_members(members.as_slice())),
            Err(e) => Err(Rejection::BodyDeserializeError(e)),
        }
    } else {
        Err(Rejection::MethodNotAllowed)
    }
}

/// An answer to a client: the status and the body, which is JSON or empty.
#[derive(Debug, Clone, PartialEq, Eq)]
pub struct Reply {
    pub status: u16,
    pub body: String,
}

/// The status of a reply and the message that it carries.
pub open spec fn rejection_status(rejection: Rejection) -> (u16, Seq<char>) {
    match rejection {
        Rejection::NotFound => (404u16, "Container not found"@),
        Rejection::EngineError(e) => (500u16, error_text(e@)),
        Rejection::BodyDeserializeError(e) => (
            400u16,
            "Request body deserialize error: "@ + decode_error_text(e),
        ),
        Rejection::MethodNotAllowed => (500u16, "UNHANDLED_REJECTION"@),
    }
}

/// The members of the JSON object that tells a failure.
pub open spec fn error_members(code: u16, message: Seq<char>) -> Seq<(Seq<char>, Datum)> {
    seq![("code"@, Datum::Integer(code as int)), ("message"@, Datum::Text(message))]
}

/// A JSON message that tells a failure.
#[derive(Debug, Clone, PartialEq, Eq)]
pub struct ErrorMsg {
    pub code: u16,
    pub message: String,
}

impl ErrorMsg {
    /// This message as compact JSON text.
    pub fn to_json(&self) -> (r: String)
        ensures
            r@ == object_text(error_members(self.code, self.message@)),
    {
        let mut members: Vec<Member> = Vec::new();
        members.push(
            Member { name: String::from_str("code"), value: JsonValue::Unsigned(self.code as u64) },
        );
        members.push(
            Member {
                name: String::from_str("message"),
                value: JsonValue::Text(self.message.clone()),
            },
        );
        assert(members_view(members@) =~= error_members(self.code, self.message@));
        render_object(members.as_slice())
    }
}

/// Answers a request that was not carried out: with 404 where the path
/// points at nothing, with 500 and the engine's message where the engine
/// failed, with 400 and the decoder's message where the body was malformed,
/// and with 500 for anything else. The body tells the status and the message
/// as JSON.
pub fn handle_rejection(err: Rejection) -> (r: Reply)
    ensures
        r.status == rejection_status(err).0,
        r.body@ == object_text(error_members(rejection_status(err).0, rejection_status(err).1)),
{
    let msg = match &err {
        Rejection::NotFound => ErrorMsg {
            code: 404,
            message: String::from_str("Container not found"),
        },
        Rejection::EngineError(e) => ErrorMsg { code: 500, message: e.message() },
        Rejection::BodyDeserializeError(e) => {
            let cause = e.message();
            ErrorMsg {
                code: 400,
                message: concat2("Request body deserialize error: ", cause.as_str()),
            }
        },
        Rejection::MethodNotAllowed => ErrorMsg {
            code: 500,
            message: String::from_str("UNHANDLED_REJECTION"),
        },
    };
    Reply { status: msg.code, body: msg.to_json() }
}

impl Reply {
    /// The answer to a request that was carried out and has nothing to
    /// tell: 200 and no body.
    pub fn empty() -> (r: Reply)
        ensures
            r.status == 200,
            r.body@.len() == 0,
    {
        proof {
            reveal_strlit("");
        }
        Reply { status: 200, body: String::from_str("") }
    }

    /// The answer to a state query: 200 and the state as JSON.
    pub fn json(state: &State) -> (r: Reply)
        ensures
            r.status == 200,
            r.body@ == object_text(state_members(state@)),
    {
        Reply { status: 200, body: state.to_json() }
    }
}

/// The answer to a request that was handed to the engine: 200 with the
/// state where the engine gave one, 200 without a body where it gave none,
/// and the answer to its failure where it failed.
pub fn answer(outcome: Result<Option<State>, EngineError>) -> (r: Reply)
    ensures
        match outcome {
            Ok(Some(state)) => r.status == 200 && r.body@ == object_text(state_members(state@)),
            Ok(None) => r.status == 200 && r.body@.len() == 0,
            Err(e) => r.status == 500 && r.body@ == object_text(
                error_members(500, error_text(e@)),
            ),
        },
{
    match outcome {
        Ok(Some(state)) => Reply::json(&state),
        Ok(None) => Reply::empty(),
        Err(e) => handle_rejection(Rejection::EngineError(e)),
    }
}

/// The port that the engine listens on where none is given.
pub const DEFAULT_PORT: u16 = 8080;

/// The address that the engine listens on: the given port of the local
/// host.
pub fn bind_address(port: u16) -> (r: String)
    ensures
        r@ == "127.0.0.1:"@ + decimal(port as nat),
{
    let number = u64_text(port as u64);
    concat2("127.0.0.1:", number.as_str())
}

} // verus!
