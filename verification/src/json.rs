//! JSON objects as the engine reads and writes them.
//!
//! Text is turned into values by `serde_json`; everything the engine decides
//! about a value is decided here, on [`Member`]s.

use vstd::prelude::*;
use crate::text::{concat3, i64_text, signed_decimal, u64_text};

verus! {

/// One JSON value, as far as the engine looks into it.
///
/// Integers are kept exactly. A number with a fraction or an exponent, an
/// array and a nested object are kept as their compact JSON text: the engine
/// passes them on but never reads them.
#[derive(Debug, Clone, PartialEq, Eq)]
pub enum JsonValue {
    Null,
    Bool(bool),
    /// An integer that was written without a minus sign.
    Unsigned(u64),
    /// An integer that was written with a minus sign.
    Negative(i64),
    Text(String),
    Raw(String),
}

/// What a [`JsonValue`] stands for.
pub enum Datum {
    Null,
    Bool(bool),
    Integer(int),
    Text(Seq<char>),
    Raw(Seq<char>),
}

impl View for JsonValue {
    type V = Datum;

    open spec fn view(&self) -> Datum {
        match self {
            JsonValue::Null => Datum::Null,
            JsonValue::Bool(b) => Datum::Bool(*b),
            JsonValue::Unsigned(n) => Datum::Integer(*n as int),
            JsonValue::Negative(n) => Datum::Integer(*n as int),
            JsonValue::Text(s) => Datum::Text(s@),
            JsonValue::Raw(s) => Datum::Raw(s@),
        }
    }
}

/// A name and its value inside a JSON object.
#[derive(Debug, Clone, PartialEq, Eq)]
pub struct Member {
    pub name: String,
    pub value: JsonValue,
}

impl View for Member {
    type V = (Seq<char>, Datum);

    open spec fn view(&self) -> (Seq<char>, Datum) {
        (self.name@, self.value@)
    }
}

/// The members of an object, each by its view.
pub open spec fn members_view(members: Seq<Member>) -> Seq<(Seq<char>, Datum)> {
    members.map_values(|m: Member| m@)
}

/// `serde_json::Value`, of which nothing but [`datum_of`] is known.
#[verifier::external_type_specification]
#[verifier::external_body]
pub struct ExJsonTree(serde_json::Value);

/// `serde_json::Error`, which is only passed on.
#[verifier::external_type_specification]
#[verifier::external_body]
pub struct ExJsonFault(serde_json::Error);

/// What `serde_json` makes of `text` when it is asked for an object: the
/// members in the order in which it hands them out, or `None` where it
/// reports an error.
pub uninterp spec fn parsed_object(text: Seq<u8>) -> Option<Seq<(Seq<char>, Datum)>>;

/// What a value of `serde_json` holds.
pub uninterp spec fn datum_of(value: serde_json::Value) -> Datum;

/// The entries of a parsed object, each value by what it holds.
pub open spec fn entries_view(entries: Seq<(String, serde_json::Value)>) -> Seq<
    (Seq<char>, Datum),
> {
    entries.map_values(|e: (String, serde_json::Value)| (e.0@, datum_of(e.1)))
}

/// `serde_json::from_slice`, asked for a `serde_json::Map`. The entries come
/// out in the order in which the map is walked; an error is whatever
/// `serde_json` reports for text that is not one JSON object.
#[verifier::external_body]
fn read_entries(text: &[u8]) -> (r: Result<Vec<(String, serde_json::Value)>, serde_json::Error>)
    ensures
        match r {
            Ok(entries) => parsed_object(text@) == Some(entries_view(entries@)),
            Err(_) => parsed_object(text@) is None,
        },
{
    serde_json::from_slice::<serde_json::Map<String, serde_json::Value>>(text).map(
        |map| map.into_iter().collect(),
    )
}

/// Tells the variants of `serde_json::Value` apart: `as_u64` and `as_i64`
/// for a number, `to_string` for what the engine does not read.
#[verifier::external_body]
fn classify(value: &serde_json::Value) -> (r: JsonValue)
    ensures
        r@ == datum_of(*value),
{
    match value {
        serde_json::Value::Null => JsonValue::Null,
        serde_json::Value::Bool(b) => JsonValue::Bool(*b),
        serde_json::Value::String(s) => JsonValue::Text(s.clone()),
        serde_json::Value::Number(n) => match (n.as_u64(), n.as_i64()) {
            (Some(u), _) => JsonValue::Unsigned(u),
            (None, Some(i)) => JsonValue::Negative(i),
            (None, None) => JsonValue::Raw(n.to_string()),
        },
        other => JsonValue::Raw(other.to_string()),
    }
}

/// `to_string` on a `serde_json::Error`: the text that its `Display` writes.
/// Nothing is said of it.
#[verifier::external_body]
fn fault_text(fault: &serde_json::Error) -> String {
    fault.to_string()
}

/// The member names that the engine knows.
#[derive(Debug, Clone, Copy, PartialEq, Eq)]
pub enum Key {
    Id,
    Status,
    Pid,
    ExitCode,
    Bundle,
    Message,
    State,
}

/// The name of a member as it is written in JSON.
pub open spec fn key_text(key: Key) -> Seq<char> {
    match key {
        Key::Id => "id"@,
        Key::Status => "status"@,
        Key::Pid => "pid"@,
        Key::ExitCode => "exit_code"@,
        Key::Bundle => "bundle"@,
        Key::Message => "message"@,
        Key::State => "state"@,
    }
}

/// The name of a member as it is written in JSON.
pub fn key_name(key: Key) -> (r: &'static str)
    ensures
        r@ == key_text(key),
{
    match key {
        Key::Id => "id",
        Key::Status => "status",
        Key::Pid => "pid",
        Key::ExitCode => "exit_code",
        Key::Bundle => "bundle",
        Key::Message => "message",
        Key::State => "state",
    }
}

/// Why a text was not decoded.
#[derive(Debug, Clone, PartialEq, Eq)]
pub enum DecodeError {
    /// The text is not one JSON object; `message` is what `serde_json` says
    /// of it.
    Syntax { message: String },
    /// A member that must be there is not.
    Missing(Key),
    /// A member holds a value of the wrong kind, a number out of range or a
    /// word that is not one of those allowed.
    Invalid(Key),
    /// The object holds a member that is not allowed there.
    UnknownField,
}

/// Reads `text` as one JSON object.
pub fn parse_object(text: &[u8]) -> (r: Result<Vec<Member>, DecodeError>)
    ensures
        match r {
            Ok(members) => parsed_object(text@) == Some(members_view(members@)),
            Err(e) => parsed_object(text@) is None && e is Syntax,
        },
{
    match read_entries(text) {
        Ok(entries) => {
            let mut members: Vec<Member> = Vec::new();
            let mut i: usize = 0;
            while i < entries.len()
                invariant
                    i <= entries.len(),
                    members@.len() == i,
                    forall|k: int|
                        0 <= k < i ==> (#[trigger] members@[k])@ == entries_view(entries@)[k],
                decreases entries.len() - i,
            {
                let name = entries[i].0.clone();
                let value = classify(&entries[i].1);
                members.push(Member { name, value });
                i += 1;
            }
            assert(members_view(members@) =~= entries_view(entries@));
            Ok(members)
        },
        Err(fault) => Err(DecodeError::Syntax { message: fault_text(&fault) }),
    }
}

/// The value of the first member of `members` that is named `key`.
pub open spec fn lookup(members: Seq<(Seq<char>, Datum)>, key: Seq<char>) -> Option<Datum>
    decreases members.len(),
{
    if members.len() == 0 {
        None
    } else if members[0].0 == key {
        Some(members[0].1)
    } else {
        lookup(members.skip(1), key)
    }
}

/// A member that is not named `key` does not change what is found under
/// `key` behind it.
pub proof fn lemma_lookup_skip(members: Seq<(Seq<char>, Datum)>, key: Seq<char>, i: int)
    requires
        0 <= i <= members.len(),
        forall|k: int| 0 <= k < i ==> (#[trigger] members[k]).0 != key,
    ensures
        lookup(members, key) == lookup(members.skip(i), key),
    decreases i,
{
    if i == 0 {
        assert(members.skip(0) =~= members);
    } else {
        lemma_lookup_skip(members, key, i - 1);
        let rest = members.skip(i - 1);
        assert(rest[0] == members[i - 1]);
        assert(rest.skip(1) =~= members.skip(i));
    }
}

/// Finds the first member named `key`.
pub fn find<'a>(members: &'a [Member], key: &str) -> (r: Option<&'a JsonValue>)
    ensures
        match r {
            Some(v) => lookup(members_view(members@), key@) == Some(v@),
            None => lookup(members_view(members@), key@) is None,
        },
{
    let wanted = String::from_str(key);
    let mut i: usize = 0;
    while i < members.len()
        invariant
            i <= members.len(),
            wanted@ == key@,
            forall|k: int| 0 <= k < i ==> (#[trigger] members_view(members@)[k]).0 != key@,
        decreases members.len() - i,
    {
        if members[i].name == wanted {
            proof {
                let ms = members_view(members@);
                lemma_lookup_skip(ms, key@, i as int);
                assert(ms.skip(i as int)[0] == ms[i as int]);
            }
            return Some(&members[i].value);
        }
        i += 1;
    }
    proof {
        let ms = members_view(members@);
        lemma_lookup_skip(ms, key@, i as int);
        assert(ms.skip(i as int).len() == 0);
    }
    None
}

/// The text under `key`.
pub open spec fn text_at(members: Seq<(Seq<char>, Datum)>, key: Key) -> Result<
    Seq<char>,
    DecodeError,
> {
    match lookup(members, key_text(key)) {
        None => Err(DecodeError::Missing(key)),
        Some(Datum::Text(s)) => Ok(s),
        Some(_) => Err(DecodeError::Invalid(key)),
    }
}

/// The integer under `key`, which must lie between `low` and `high`.
pub open spec fn integer_at(
    members: Seq<(Seq<char>, Datum)>,
    key: Key,
    low: int,
    high: int,
) -> Result<int, DecodeError> {
    match lookup(members, key_text(key)) {
        None => Err(DecodeError::Missing(key)),
        Some(Datum::Integer(n)) => if low <= n <= high {
            Ok(n)
        } else {
            Err(DecodeError::Invalid(key))
        },
        Some(_) => Err(DecodeError::Invalid(key)),
    }
}

/// The integer under `key`, which must fit `u64`.
pub open spec fn u64_at(members: Seq<(Seq<char>, Datum)>, key: Key) -> Result<int, DecodeError> {
    integer_at(members, key, 0, u64::MAX as int)
}

/// The integer under `key`, which must fit `i64`.
pub open spec fn i64_at(members: Seq<(Seq<char>, Datum)>, key: Key) -> Result<int, DecodeError> {
    integer_at(members, key, i64::MIN as int, i64::MAX as int)
}

/// The integer under `key`, which must fit `i32`.
pub open spec fn i32_at(members: Seq<(Seq<char>, Datum)>, key: Key) -> Result<int, DecodeError> {
    integer_at(members, key, i32::MIN as int, i32::MAX as int)
}

/// Reads the member `key` as text.
pub fn text_field(members: &[Member], key: Key) -> (r: Result<String, DecodeError>)
    ensures
        match r {
            Ok(s) => text_at(members_view(members@), key) == Ok::<Seq<char>, DecodeError>(s@),
            Err(e) => text_at(members_view(members@), key) == Err::<Seq<char>, DecodeError>(e),
        },
{
    match find(members, key_name(key)) {
        None => Err(DecodeError::Missing(key)),
        Some(JsonValue::Text(s)) => Ok(s.clone()),
        Some(_) => Err(DecodeError::Invalid(key)),
    }
}

/// Reads the member `key` as an integer that fits `u64`.
pub fn u64_field(members: &[Member], key: Key) -> (r: Result<u64, DecodeError>)
    ensures
        match r {
            Ok(n) => u64_at(members_view(members@), key) == Ok::<int, DecodeError>(n as int),
            Err(e) => u64_at(members_view(members@), key) == Err::<int, DecodeError>(e),
        },
{
    match find(members, key_name(key)) {
        None => Err(DecodeError::Missing(key)),
        Some(JsonValue::Unsigned(n)) => Ok(*n),
        Some(JsonValue::Negative(n)) => if *n >= 0 {
            Ok(*n as u64)
        } else {
            Err(DecodeError::Invalid(key))
        },
        Some(_) => Err(DecodeError::Invalid(key)),
    }
}

/// Reads the member `key` as an integer that fits `i64`.
pub fn i64_field(members: &[Member], key: Key) -> (r: Result<i64, DecodeError>)
    ensures
        match r {
            Ok(n) => i64_at(members_view(members@), key) == Ok::<int, DecodeError>(n as int),
            Err(e) => i64_at(members_view(members@), key) == Err::<int, DecodeError>(e),
        },
{
    match find(members, key_name(key)) {
        None => Err(DecodeError::Missing(key)),
        Some(JsonValue::Unsigned(n)) => if *n <= i64::MAX as u64 {
            Ok(*n as i64)
        } else {
            Err(DecodeError::Invalid(key))
        },
        Some(JsonValue::Negative(n)) => Ok(*n),
        Some(_) => Err(DecodeError::Invalid(key)),
    }
}

/// Reads the member `key` as an integer that fits `i32`.
pub fn i32_field(members: &[Member], key: Key) -> (r: Result<i32, DecodeError>)
    ensures
        match r {
            Ok(n) => i32_at(members_view(members@), key) == Ok::<int, DecodeError>(n as int),
            Err(e) => i32_at(members_view(members@), key) == Err::<int, DecodeError>(e),
        },
{
    match i64_field(members, key) {
        Ok(n) => if i32::MIN as i64 <= n && n <= i32::MAX as i64 {
            Ok(n as i32)
        } else {
            Err(DecodeError::Invalid(key))
        },
        Err(e) => {
            Err(e)
        },
    }
}

/// The JSON string literal that `serde_json` writes for `text`: the text in
/// double quotes, with what must be escaped written as an escape.
pub uninterp spec fn json_quoted(text: Seq<char>) -> Seq<char>;

/// `serde_json::to_string` on a string slice, which cannot fail.
#[verifier::external_body]
fn quote(text: &str) -> (r: String)
    ensures
        r@ == json_quoted(text@),
{
    serde_json::to_string(text).unwrap_or_default()
}

/// A value as compact JSON text.
pub open spec fn value_text(value: Datum) -> Seq<char> {
    match value {
        Datum::Null => "null"@,
        Datum::Bool(true) => "true"@,
        Datum::Bool(false) => "false"@,
        Datum::Integer(n) => signed_decimal(n),
        Datum::Text(s) => json_quoted(s),
        Datum::Raw(s) => s,
    }
}

/// A member as compact JSON text: the quoted name, a colon, the value.
pub open spec fn member_text(member: (Seq<char>, Datum)) -> Seq<char> {
    json_quoted(member.0) + ":"@ + value_text(member.1)
}

/// The members as compact JSON text, with commas between them.
pub open spec fn members_text(members: Seq<(Seq<char>, Datum)>) -> Seq<char>
    decreases members.len(),
{
    if members.len() == 0 {
        Seq::empty()
    } else if members.len() == 1 {
        member_text(members[0])
    } else {
        members_text(members.drop_last()) + ","@ + member_text(members.last())
    }
}

/// An object as compact JSON text.
pub open spec fn object_text(members: Seq<(Seq<char>, Datum)>) -> Seq<char> {
    "{"@ + members_text(members) + "}"@
}

/// Writes one value as compact JSON.
pub fn render_value(value: &JsonValue) -> (r: String)
    ensures
        r@ == value_text(value@),
{
    match value {
        JsonValue::Null => String::from_str("null"),
        JsonValue::Bool(true) => String::from_str("true"),
        JsonValue::Bool(false) => String::from_str("false"),
        JsonValue::Unsigned(n) => u64_text(*n),
        JsonValue::Negative(n) => i64_text(*n),
        JsonValue::Text(s) => quote(s.as_str()),
        JsonValue::Raw(s) => s.clone(),
    }
}

/// Writes an object as compact JSON, the members in the order given.
pub fn render_object(members: &[Member]) -> (r: String)
    ensures
        r@ == object_text(members_view(members@)),
{
    let mut out = String::from_str("{");
    let mut i: usize = 0;
    while i < members.len()
        invariant
            i <= members.len(),
            out@ == "{"@ + members_text(members_view(members@).take(i as int)),
        decreases members.len() - i,
    {
        if i > 0 {
            out.append(",");
        }
        let name = quote(members[i].name.as_str());
        let value = render_value(&members[i].value);
        out.append(name.as_str());
        out.append(":");
        out.append(value.as_str());
        proof {
            let ms = members_view(members@);
            assert(ms.take(i + 1).drop_last() =~= ms.take(i as int));
            assert(ms.take(i + 1).last() == ms[i as int]);
            assert(out@ =~= "{"@ + members_text(ms.take(i + 1)));
        }
        i += 1;
    }
    assert(members_view(members@).take(i as int) =~= members_view(members@));
    out.append("}");
    out
}

/// How a decoding error is told.
pub open spec fn decode_error_text(e: DecodeError) -> Seq<char> {
    match e {
        DecodeError::Syntax { message } => message@,
        DecodeError::Missing(key) => "missing field `"@ + key_text(key) + "`"@,
        DecodeError::Invalid(key) => "invalid value for field `"@ + key_text(key) + "`"@,
        DecodeError::UnknownField => "unknown field"@,
    }
}

impl DecodeError {
    /// The message that is shown for this error.
    pub fn message(&self) -> (r: String)
        ensures
            r@ == decode_error_text(*self),
    {
        match self {
            DecodeError::Syntax { message } => message.clone(),
            DecodeError::Missing(key) => concat3("missing field `", key_name(*key), "`"),
            DecodeError::Invalid(key) => concat3("invalid value for field `", key_name(*key), "`"),
            DecodeError::UnknownField => String::from_str("unknown field"),
        }
    }
}

} // verus!
