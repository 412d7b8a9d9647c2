//! The two host signals the bridge uses, and which one each action emits.

use vstd::prelude::*;
use crate::midi::NoteAction;

verus! {

/// Description of one signal the host must register: its name, the name
/// of its single integer argument, and that argument's default value.
pub struct SignalSpec {
    pub name: String,
    pub arg_name: String,
    pub arg_default: i64,
}

/// A well-formed note signal carries the given name and one integer
/// argument called `note` that defaults to -1.
pub open spec fn note_signal_spec(s: SignalSpec, name: Seq<char>) -> bool {
    &&& s.name@ == name
    &&& s.arg_name@ == "note"@
    &&& s.arg_default == -1
}

/// The signals the host must register before any event is handled:
/// `note_play` and `note_ended`.
pub fn note_signals() -> (v: Vec<SignalSpec>)
    ensures
        v@.len() == 2,
        note_signal_spec(v@[0], "note_play"@),
        note_signal_spec(v@[1], "note_ended"@),
{
    let mut v: Vec<SignalSpec> = Vec::new();
    v.push(SignalSpec {
        name: "note_play".to_owned(),
        arg_name: "note".to_owned(),
        arg_default: -1,
    });
    v.push(SignalSpec {
        name: "note_ended".to_owned(),
        arg_name: "note".to_owned(),
        arg_default: -1,
    });
    v
}

/// The signal one action emits, with the note number as its payload:
/// a key press announces `note_play`, a release `note_ended`, a dropped
/// event nothing.
pub fn action_signal(a: &NoteAction) -> (r: Option<(String, i64)>)
    ensures
        match *a {
            NoteAction::Play { note, .. } => (r matches Some(p)
                && p.0@ == "note_play"@ && p.1 == note),
            NoteAction::End { note } => (r matches Some(p)
                && p.0@ == "note_ended"@ && p.1 == note),
            NoteAction::Ignore => r is None,
        },
{
    match a {
        NoteAction::Play { note, .. } => Some(("note_play".to_owned(), *note)),
        NoteAction::End { note } => Some(("note_ended".to_owned(), *note)),
        NoteAction::Ignore => None,
    }
}

} // verus!
