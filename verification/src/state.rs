//! The states of a container, and how they are written in JSON.
//!
//! A state is one flat object: `id`, `status`, `bundle`, and beside them
//! `pid` or `exit_code` where the status has one.

use vstd::prelude::*;
use crate::json::{
    i64_at, i64_field, key_text, lookup, members_view, object_text, parse_object,
    parsed_object, render_object, text_at, text_field, u64_at, u64_field, Datum, DecodeError,
    JsonValue, Key, Member,
};

verus! {

/// The states that a container can be in.
#[derive(Debug, Clone, Copy, PartialEq, Eq)]
pub enum Status {
    Creating,
    Created { pid: u64 },
    Running { pid: u64 },
    Paused { pid: u64 },
    Stopped { exit_code: i64 },
}

/// The current state of a container, as the runtime reports it.
#[derive(Debug, Clone, PartialEq, Eq)]
pub struct State {
    /// The container's name.
    pub id: String,
    /// What the container is doing.
    pub status: Status,
    /// The path of the bundle directory.
    pub bundle: String,
}

/// What a [`State`] stands for.
pub struct StateView {
    pub id: Seq<char>,
    pub status: Status,
    pub bundle: Seq<char>,
}

impl View for State {
    type V = StateView;

    open spec fn view(&self) -> StateView {
        StateView { id: self.id@, status: self.status, bundle: self.bundle@ }
    }
}

/// The word that stands for a status in JSON.
pub open spec fn status_word(status: Status) -> Seq<char> {
    match status {
        Status::Creating => "creating"@,
        Status::Created { .. } => "created"@,
        Status::Running { .. } => "running"@,
        Status::Paused { .. } => "paused"@,
        Status::Stopped { .. } => "stopped"@,
    }
}

/// The status that the members of an object spell out: the word under
/// `status` names it, and `pid` or `exit_code` beside it holds what belongs to
/// it. Other members are ignored.
pub open spec fn decode_status(members: Seq<(Seq<char>, Datum)>) -> Result<Status, DecodeError> {
    match text_at(members, Key::Status) {
        Err(e) => Err(e),
        Ok(word) => if word == "creating"@ {
            Ok(Status::Creating)
        } else if word == "created"@ {
            match u64_at(members, Key::Pid) {
                Ok(pid) => Ok(Status::Created { pid: pid as u64 }),
                Err(e) => Err(e),
            }
        } else if word == "running"@ {
            match u64_at(members, Key::Pid) {
                Ok(pid) => Ok(Status::Running { pid: pid as u64 }),
                Err(e) => Err(e),
            }
        } else if word == "paused"@ {
            match u64_at(members, Key::Pid) {
                Ok(pid) => Ok(Status::Paused { pid: pid as u64 }),
                Err(e) => Err(e),
            }
        } else if word == "stopped"@ {
            match i64_at(members, Key::ExitCode) {
                Ok(code) => Ok(Status::Stopped { exit_code: code as i64 }),
                Err(e) => Err(e),
            }
        } else {
            Err(DecodeError::Invalid(Key::Status))
        },
    }
}

/// The state that the members of an object spell out: `id` and `bundle` are
/// texts, and the status lies flat beside them.
pub open spec fn decode_state(members: Seq<(Seq<char>, Datum)>) -> Result<StateView, DecodeError> {
    match text_at(members, Key::Id) {
        Err(e) => Err(e),
        Ok(id) => match decode_status(members) {
            Err(e) => Err(e),
            Ok(status) => match text_at(members, Key::Bundle) {
                Err(e) => Err(e),
                Ok(bundle) => Ok(StateView { id, status, bundle }),
            },
        },
    }
}

/// The members that spell a state out: `id`, `status`, then `pid` or
/// `exit_code` where the status has one, then `bundle`.
pub open spec fn state_members(state: StateView) -> Seq<(Seq<char>, Datum)> {
    let head = seq![
        (key_text(Key::Id), Datum::Text(state.id)),
        (key_text(Key::Status), Datum::Text(status_word(state.status))),
    ];
    let tail = seq![(key_text(Key::Bundle), Datum::Text(state.bundle))];
    match state.status {
        Status::Creating => head + tail,
        Status::Created { pid } => head + seq![(key_text(Key::Pid), Datum::Integer(pid as int))]
            + tail,
        Status::Running { pid } => head + seq![(key_text(Key::Pid), Datum::Integer(pid as int))]
            + tail,
        Status::Paused { pid } => head + seq![(key_text(Key::Pid), Datum::Integer(pid as int))]
            + tail,
        Status::Stopped { exit_code } => head + seq![
            (key_text(Key::ExitCode), Datum::Integer(exit_code as int)),
        ] + tail,
    }
}

fn word_is(word: &String, wanted: &str) -> (r: bool)
    ensures
        r == (word@ == wanted@),
{
    let other = String::from_str(wanted);
    *word == other
}

impl Status {
    /// Reads the status that lies flat among `members`.
    pub fn from_members(members: &[Member]) -> (r: Result<Status, DecodeError>)
        ensures
            r == decode_status(members_view(members@)),
    {
        let word = match text_field(members, Key::Status) {
            Ok(word) => word,
            Err(e) => {
                return Err(e);
            },
        };
        if word_is(&word, "creating") {
            Ok(Status::Creating)
        } else if word_is(&word, "created") {
            match u64_field(members, Key::Pid) {
                Ok(pid) => Ok(Status::Created { pid }),
                Err(e) => Err(e),
            }
        } else if word_is(&word, "running") {
            match u64_field(members, Key::Pid) {
                Ok(pid) => Ok(Status::Running { pid }),
                Err(e) => Err(e),
            }
        } else if word_is(&word, "paused") {
            match u64_field(members, Key::Pid) {
                Ok(pid) => Ok(Status::Paused { pid }),
                Err(e) => Err(e),
            }
        } else if word_is(&word, "stopped") {
            match i64_field(members, Key::ExitCode) {
                Ok(exit_code) => Ok(Status::Stopped { exit_code }),
                Err(e) => Err(e),
            }
        } else {
            Err(DecodeError::Invalid(Key::Status))
        }
    }
}

impl State {
    /// Reads a state from the members of a JSON object.
    pub fn from_members(members: &[Member]) -> (r: Result<State, DecodeError>)
        ensures
            match r {
                Ok(state) => decode_state(members_view(members@)) == Ok::<
                    StateView,
                    DecodeError,
                >(state@),
                Err(e) => decode_state(members_view(members@)) == Err::<StateView, DecodeError>(e),
            },
    {
        let id = match text_field(members, Key::Id) {
            Ok(id) => id,
            Err(e) => {
                return Err(e);
            },
        };
        let status = match Status::from_members(members) {
            Ok(status) => status,
            Err(e) => {
                return Err(e);
            },
        };
        match text_field(members, Key::Bundle) {
            Ok(bundle) => Ok(State { id, status, bundle }),
            Err(e) => Err(e),
        }
    }

    /// Reads a state from JSON text, as the runtime prints it.
    pub fn from_slice(text: &[u8]) -> (r: Result<State, DecodeError>)
        ensures
            match parsed_object(text@) {
                None => r matches Err(DecodeError::Syntax { .. }),
                Some(members) => match r {
                    Ok(state) => decode_state(members) == Ok::<StateView, DecodeError>(state@),
                    Err(e) => decode_state(members) == Err::<StateView, DecodeError>(e),
                },
            },
    {
        match parse_object(text) {
            Ok(members) => State::from_members(members.as_slice()),
            Err(e) => Err(e),
        }
    }

    /// The members of the JSON object that spells this state out.
    pub fn to_members(&self) -> (r: Vec<Member>)
        ensures
            members_view(r@) == state_members(self@),
    {
        let mut members: Vec<Member> = Vec::new();
        members.push(
            Member { name: String::from_str("id"), value: JsonValue::Text(self.id.clone()) },
        );
        let extra = match self.status {
            Status::Creating => {
                members.push(text_member("status", "creating"));
                None
            },
            Status::Created { pid } => {
                members.push(text_member("status", "created"));
                Some(Member { name: String::from_str("pid"), value: JsonValue::Unsigned(pid) })
            },
            Status::Running { pid } => {
                members.push(text_member("status", "running"));
                Some(Member { name: String::from_str("pid"), value: JsonValue::Unsigned(pid) })
            },
            Status::Paused { pid } => {
                members.push(text_member("status", "paused"));
                Some(Member { name: String::from_str("pid"), value: JsonValue::Unsigned(pid) })
            },
            Status::Stopped { exit_code } => {
                members.push(text_member("status", "stopped"));
                Some(
                    Member {
                        name: String::from_str("exit_code"),
                        value: if exit_code < 0 {
                            JsonValue::Negative(exit_code)
                        } else {
                            JsonValue::Unsigned(exit_code as u64)
                        },
                    },
                )
            },
        };
        match extra {
            Some(member) => {
                members.push(member);
            },
            None => {},
        }
        members.push(
            Member {
                name: String::from_str("bundle"),
                value: JsonValue::Text(self.bundle.clone()),
            },
        );
        assert(members_view(members@) =~= state_members(self@));
        members
    }

    /// This state as compact JSON text.
    pub fn to_json(&self) -> (r: String)
        ensures
            r@ == object_text(state_members(self@)),
    {
        let members = self.to_members();
        render_object(members.as_slice())
    }
}

fn text_member(name: &str, value: &str) -> (r: Member)
    ensures
        r@ == (name@, Datum::Text(value@)),
{
    Member { name: String::from_str(name), value: JsonValue::Text(String::from_str(value)) }
}

/// The names of the members of a state differ from one another.
proof fn lemma_state_keys_differ()
    ensures
        key_text(Key::Id) != key_text(Key::Status),
        key_text(Key::Id) != key_text(Key::Pid),
        key_text(Key::Id) != key_text(Key::ExitCode),
        key_text(Key::Id) != key_text(Key::Bundle),
        key_text(Key::Status) != key_text(Key::Pid),
        key_text(Key::Status) != key_text(Key::ExitCode),
        key_text(Key::Status) != key_text(Key::Bundle),
        key_text(Key::Pid) != key_text(Key::Bundle),
        key_text(Key::ExitCode) != key_text(Key::Bundle),
        key_text(Key::Pid) != key_text(Key::ExitCode),
{
    reveal_strlit("id");
    reveal_strlit("status");
    reveal_strlit("pid");
    reveal_strlit("exit_code");
    reveal_strlit("bundle");
    assert(key_text(Key::Id).len() == 2);
    assert(key_text(Key::Status).len() == 6);
    assert(key_text(Key::Pid).len() == 3);
    assert(key_text(Key::ExitCode).len() == 9);
    assert(key_text(Key::Bundle).len() == 6);
    assert(key_text(Key::Status)[0] != key_text(Key::Bundle)[0]);
}

/// The words for the five statuses differ from one another.
proof fn lemma_status_words_differ()
    ensures
        "creating"@ != "created"@,
        "creating"@ != "running"@,
        "creating"@ != "paused"@,
        "creating"@ != "stopped"@,
        "created"@ != "running"@,
        "created"@ != "paused"@,
        "created"@ != "stopped"@,
        "running"@ != "paused"@,
        "running"@ != "stopped"@,
        "paused"@ != "stopped"@,
{
    reveal_strlit("creating");
    reveal_strlit("created");
    reveal_strlit("running");
    reveal_strlit("paused");
    reveal_strlit("stopped");
    assert("creating"@[5] != "created"@[5]);
    assert("paused"@.len() == 6);
    assert("creating"@.len() == 8);
    assert("creating"@[0] != "running"@[0]);
    assert("created"@[0] != "running"@[0]);
    assert("created"@[0] != "stopped"@[0]);
    assert("running"@[0] != "stopped"@[0]);
}

/// Decoding undoes encoding: the members that spell a state out are read
/// back as that state, whatever the state.
pub proof fn lemma_state_round_trip(state: StateView)
    ensures
        decode_state(state_members(state)) == Ok::<StateView, DecodeError>(state),
{
    lemma_state_keys_differ();
    lemma_status_words_differ();
    reveal_with_fuel(lookup, 5);
    let members = state_members(state);
    assert(members[0] == (key_text(Key::Id), Datum::Text(state.id)));
    assert(members[1] == (key_text(Key::Status), Datum::Text(status_word(state.status))));
    assert(lookup(members, key_text(Key::Id)) == Some(Datum::Text(state.id)));
    assert(members.skip(1)[0] == members[1]);
    assert(lookup(members, key_text(Key::Status)) == Some(
        Datum::Text(status_word(state.status)),
    ));
    match state.status {
        Status::Creating => {
            assert(members.len() == 3);
            assert(members.skip(1).skip(1)[0] == members[2]);
            assert(lookup(members, key_text(Key::Bundle)) == Some(Datum::Text(state.bundle)));
        },
        _ => {
            assert(members.len() == 4);
            assert(members.skip(1).skip(1)[0] == members[2]);
            assert(members.skip(1).skip(1).skip(1)[0] == members[3]);
            assert(lookup(members, key_text(Key::Bundle)) == Some(Datum::Text(state.bundle)));
        },
    }
}

} // verus!
