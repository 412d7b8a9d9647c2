//! MIDI events and the rule that turns one event into one action.

use vstd::prelude::*;

verus! {

/// Message code under which the host reports a key press.
pub const MIDI_MESSAGE_NOTE_ON: i64 = 9;

/// Message code under which the host reports a key release.
pub const MIDI_MESSAGE_NOTE_OFF: i64 = 8;

/// Interleaved audio channels in one rendered block.
pub const CHANNEL_COUNT: usize = 2;

/// Frames per second in one rendered block.
pub const SAMPLE_RATE: usize = 44100;

/// A MIDI event as the host hands it over, reduced to plain integers.
#[derive(Clone, Copy, Debug)]
pub struct MidiEvent {
    pub channel: i64,
    pub message: i64,
    pub pitch: i64,
    pub velocity: i64,
}

/// What the bridge does with one event.
#[derive(Clone, Copy, Debug, PartialEq, Eq, Structural)]
pub enum NoteAction {
    /// Press the key: synthesize a block, play it, announce the note.
    Play { note: i64, velocity: i64 },
    /// Release the key: announce that the note ended.
    End { note: i64 },
    /// Drop the event.
    Ignore,
}

/// The routing rule. An event without velocity, or on any channel but 0,
/// is dropped; a note-on is played, a note-off is ended, every other
/// message is dropped.
pub open spec fn route_spec(e: MidiEvent) -> NoteAction {
    if e.velocity == 0 || e.channel != 0 {
        NoteAction::Ignore
    } else if e.message == MIDI_MESSAGE_NOTE_ON {
        NoteAction::Play { note: e.pitch, velocity: e.velocity }
    } else if e.message == MIDI_MESSAGE_NOTE_OFF {
        NoteAction::End { note: e.pitch }
    } else {
        NoteAction::Ignore
    }
}

/// Decide what to do with one incoming event.
pub fn route_midi_event(e: &MidiEvent) -> (a: NoteAction)
    ensures
        a == route_spec(*e),
{
    if e.velocity == 0 || e.channel != 0 {
        return NoteAction::Ignore;
    }
    if e.message == MIDI_MESSAGE_NOTE_ON {
        NoteAction::Play { note: e.pitch, velocity: e.velocity }
    } else if e.message == MIDI_MESSAGE_NOTE_OFF {
        NoteAction::End { note: e.pitch }
    } else {
        NoteAction::Ignore
    }
}

/// Silent or off-channel events are never acted on, and an action never
/// carries any pitch but the event's own.
pub proof fn lemma_route_faithful(e: MidiEvent)
    ensures
        (e.velocity == 0 || e.channel != 0) ==> route_spec(e) is Ignore,
        route_spec(e) matches NoteAction::Play { note, velocity }
            ==> note == e.pitch && velocity == e.velocity && e.message == MIDI_MESSAGE_NOTE_ON,
        route_spec(e) matches NoteAction::End { note }
            ==> note == e.pitch && e.message == MIDI_MESSAGE_NOTE_OFF,
{
}

/// Length of the interleaved sample buffer rendered after a key press:
/// one second of stereo audio.
pub fn render_block_len() -> (n: usize)
    ensures
        n == SAMPLE_RATE * CHANNEL_COUNT,
{
    SAMPLE_RATE * CHANNEL_COUNT
}

} // verus!
