//! The fallback strategy for loading the sound-font bank.
//!
//! The host performs each attempt (a synthesizer load, a file write);
//! this module decides which attempt comes next and when the bank counts
//! as loaded, and proves that the strategy always settles within three
//! attempts.

use vstd::prelude::*;

verus! {

/// File name of the sound-font bank: the bundled relative path, and the
/// name of the copy kept in the temp directory.
pub fn sound_font_file_name() -> (s: &'static str)
    ensures
        s@ == "default.sf2"@,
{
    "default.sf2"
}

/// One step of the load strategy: what the host is asked to do next.
#[derive(Clone, Copy, Debug, PartialEq, Eq, Structural)]
pub enum LoadState {
    /// Load the bank from the bundled relative path.
    TryBundled,
    /// Load the bank from the copy in the temp directory.
    TryTemp,
    /// Write the embedded bank bytes to the temp directory, then load
    /// from there.
    WriteAndTryTemp,
    /// An attempt succeeded: the bank is loaded.
    Loaded,
    /// Every attempt failed: construction cannot go on.
    Failed,
}

/// A state in which the strategy asks nothing more of the host.
pub open spec fn is_terminal(s: LoadState) -> bool {
    s is Loaded || s is Failed
}

/// The transition rule: a successful attempt loads the bank; a failed
/// bundled load falls back to the temp copy, a failed temp load to
/// writing the embedded bytes first, and a failure even then gives up.
pub open spec fn next_spec(s: LoadState, succeeded: bool) -> LoadState {
    match s {
        LoadState::TryBundled => if succeeded {
            LoadState::Loaded
        } else {
            LoadState::TryTemp
        },
        LoadState::TryTemp => if succeeded {
            LoadState::Loaded
        } else {
            LoadState::WriteAndTryTemp
        },
        LoadState::WriteAndTryTemp => if succeeded {
            LoadState::Loaded
        } else {
            LoadState::Failed
        },
        LoadState::Loaded => LoadState::Loaded,
        LoadState::Failed => LoadState::Failed,
    }
}

/// The state in which loading starts: the bundled path is tried first.
pub fn initial_load_state() -> (s: LoadState)
    ensures
        s == LoadState::TryBundled,
{
    LoadState::TryBundled
}

/// Advance the strategy by the outcome of the attempt just made.
pub fn next_load_state(s: LoadState, succeeded: bool) -> (n: LoadState)
    ensures
        n == next_spec(s, succeeded),
        succeeded && !is_terminal(s) ==> n is Loaded,
        is_terminal(s) ==> n == s,
{
    match s {
        LoadState::TryBundled => if succeeded {
            LoadState::Loaded
        } else {
            LoadState::TryTemp
        },
        LoadState::TryTemp => if succeeded {
            LoadState::Loaded
        } else {
            LoadState::WriteAndTryTemp
        },
        LoadState::WriteAndTryTemp => if succeeded {
            LoadState::Loaded
        } else {
            LoadState::Failed
        },
        LoadState::Loaded => LoadState::Loaded,
        LoadState::Failed => LoadState::Failed,
    }
}

/// Note events may be processed only once the bank is loaded.
pub fn can_process_events(s: LoadState) -> (r: bool)
    ensures
        r <==> s is Loaded,
{
    matches!(s, LoadState::Loaded)
}

/// Run from the start, the strategy settles within three attempts,
/// whatever their outcomes: it loads the bank exactly when some attempt
/// succeeded, it gives up exactly when all three failed, and the
/// embedded bytes are written only after both plain loads failed.
pub proof fn lemma_load_strategy(b1: bool, b2: bool, b3: bool)
    ensures
        is_terminal(next_spec(next_spec(next_spec(LoadState::TryBundled, b1), b2), b3)),
        next_spec(next_spec(next_spec(LoadState::TryBundled, b1), b2), b3) is Loaded
            <==> (b1 || b2 || b3),
        next_spec(next_spec(next_spec(LoadState::TryBundled, b1), b2), b3) is Failed
            <==> (!b1 && !b2 && !b3),
        next_spec(next_spec(LoadState::TryBundled, b1), b2) is WriteAndTryTemp
            <==> (!b1 && !b2),
{
}

} // verus!
