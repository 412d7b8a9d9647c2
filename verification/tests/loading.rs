use midi_bridge::signals::note_signals;
use midi_bridge::soundfont::{
    can_process_events, initial_load_state, next_load_state, sound_font_file_name, LoadState,
};

#[test]
fn starts_with_the_bundled_path() {
    assert_eq!(initial_load_state(), LoadState::TryBundled);
}

#[test]
fn bundled_success_loads_at_once() {
    let s = next_load_state(initial_load_state(), true);
    assert_eq!(s, LoadState::Loaded);
    assert!(can_process_events(s));
}

#[test]
fn bundled_failure_falls_back_to_temp() {
    let s = next_load_state(initial_load_state(), false);
    assert_eq!(s, LoadState::TryTemp);
    assert!(!can_process_events(s));
}

#[test]
fn temp_failure_writes_the_embedded_bank() {
    let s = next_load_state(LoadState::TryTemp, false);
    assert_eq!(s, LoadState::WriteAndTryTemp);
}

#[test]
fn written_bank_loads() {
    let s = next_load_state(LoadState::WriteAndTryTemp, true);
    assert_eq!(s, LoadState::Loaded);
}

#[test]
fn three_failures_give_up() {
    let mut s = initial_load_state();
    s = next_load_state(s, false);
    s = next_load_state(s, false);
    s = next_load_state(s, false);
    assert_eq!(s, LoadState::Failed);
    assert!(!can_process_events(s));
}

#[test]
fn terminal_states_absorb() {
    assert_eq!(next_load_state(LoadState::Loaded, false), LoadState::Loaded);
    assert_eq!(next_load_state(LoadState::Failed, true), LoadState::Failed);
}

#[test]
fn bank_file_name() {
    assert_eq!(sound_font_file_name(), "default.sf2");
}

#[test]
fn two_note_signals_are_registered() {
    let v = note_signals();
    assert_eq!(v.len(), 2);
    assert_eq!(v[0].name, "note_play");
    assert_eq!(v[1].name, "note_ended");
    for s in &v {
        assert_eq!(s.arg_name, "note");
        assert_eq!(s.arg_default, -1);
    }
}
