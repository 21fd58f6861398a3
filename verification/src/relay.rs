//! The event relay: a raw string handed over by the hosted page is decoded
//! as a JSON wire message and mapped, by exact match of its `event` field,
//! onto a closed set of commands. Anything else - malformed JSON, a missing
//! or non-string `event`, an unrecognized event name - yields no command.

use vstd::prelude::*;

verus! {

/// A command the hosted page may relay into the native event loop.
#[derive(Clone, Copy, PartialEq, Eq, Structural, Debug)]
pub enum Command {
    /// Begin an interactive move of the window, tracking the pointer.
    DragWindow,
    /// Toggle the window between its base and its expanded size.
    ToggleSetting,
}

/// The `event` and optional `message` fields of the raw string `s`, when
/// `s` decodes as a JSON object whose `event` field is a string and whose
/// `message` field, if present and not null, is a string; `None` otherwise.
pub uninterp spec fn json_body_of(s: Seq<char>) -> Option<(Seq<char>, Option<Seq<char>>)>;

/// Relies on serde_json::from_str and serde_json::Value::{get, as_str,
/// is_null} to decode a wire message: a JSON object with a mandatory
/// string field `event` and an optional string field `message` (an absent
/// or null `message` counts as no message). The decoded fields depend on
/// the characters of `s` alone.
#[verifier::external_body]
fn decode_body(s: &str) -> (r: Option<(String, Option<String>)>)
    ensures
        r.deep_view() == json_body_of(s@),
{
    let v: serde_json::Value = match serde_json::from_str(s) {
        Ok(v) => v,
        Err(_) => return None,
    };
    let event = v.get("event")?.as_str()?.to_string();
    let message = match v.get("message") {
        None => None,
        Some(m) if m.is_null() => None,
        Some(m) => Some(m.as_str()?.to_string()),
    };
    Some((event, message))
}

/// The mapping table from event names to commands: exactly two names are
/// recognized, each standing for one command.
pub open spec fn spec_command_of_event(e: Seq<char>) -> Option<Command> {
    if e == "main:drag:window"@ {
        Some(Command::DragWindow)
    } else if e == "main:toggle:setting"@ {
        Some(Command::ToggleSetting)
    } else {
        None
    }
}

/// What parsing a raw wire message yields: the command its `event` field
/// maps to, if the message decodes and the name is recognized.
pub open spec fn spec_parse_command(s: Seq<char>) -> Option<Command> {
    match json_body_of(s) {
        Some(body) => spec_command_of_event(body.0),
        None => None,
    }
}

/// The command an event name maps to, by exact string match against the
/// mapping table.
pub fn command_of_event(e: &String) -> (r: Option<Command>)
    ensures
        r == spec_command_of_event(e@),
{
    let drag: String = "main:drag:window".to_owned();
    let toggle: String = "main:toggle:setting".to_owned();
    if *e == drag {
        Some(Command::DragWindow)
    } else if *e == toggle {
        Some(Command::ToggleSetting)
    } else {
        None
    }
}

/// Parses a raw wire message into at most one command. Total over all
/// strings: malformed input yields `None`, never an error.
pub fn parse_command(raw: &str) -> (r: Option<Command>)
    ensures
        r == spec_parse_command(raw@),
{
    match decode_body(raw) {
        Some(body) => command_of_event(&body.0),
        None => None,
    }
}

/// Parsing is deterministic: equal inputs always map to the equal result,
/// and that result is one command or none.
pub proof fn lemma_parse_command_deterministic(s1: Seq<char>, s2: Seq<char>)
    requires
        s1 == s2,
    ensures
        spec_parse_command(s1) == spec_parse_command(s2),
{
}

/// The mapping table round-trips: an event name yields a command exactly
/// when it is one of the two recognized names, and each recognized name
/// yields its own command; every name outside the table yields none.
pub proof fn lemma_event_table_round_trip(e: Seq<char>)
    ensures
        spec_command_of_event(e) == Some(Command::DragWindow) <==> e == "main:drag:window"@,
        spec_command_of_event(e) == Some(Command::ToggleSetting) <==> e == "main:toggle:setting"@,
        e != "main:drag:window"@ && e != "main:toggle:setting"@ ==> spec_command_of_event(
            e,
        ) is None,
{
    reveal_strlit("main:drag:window");
    reveal_strlit("main:toggle:setting");
    assert("main:drag:window"@.len() == 16);
    assert("main:toggle:setting"@.len() == 19);
    assert("main:drag:window"@ != "main:toggle:setting"@);
}

/// A wire message parses to a command exactly as its decoded `event` field
/// maps through the table; one that does not decode parses to none.
pub proof fn lemma_parse_round_trip(s: Seq<char>)
    ensures
        json_body_of(s) matches Some(body) ==> spec_parse_command(s) == spec_command_of_event(
            body.0,
        ),
        json_body_of(s) is None ==> spec_parse_command(s) is None,
{
}

} // verus!
