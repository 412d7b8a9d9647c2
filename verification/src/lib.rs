//! Decision logic of a MIDI-to-synthesizer bridge.
//!
//! A host engine delivers raw MIDI events; a host shell performs the
//! synthesizer calls, the audio output and the signal emission. This
//! library holds the parts that can be stated and proved: which events
//! are acted on and how (`midi`), which signals the host must register
//! and emit (`signals`), and the fallback strategy for loading the
//! sound-font bank (`soundfont`).

pub mod midi;
pub mod signals;
pub mod soundfont;
