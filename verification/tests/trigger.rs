use noise_trigger::trigger::{decide, process_block, threshold_met, Action, Mode, Payload, State};

#[test]
fn defaults_at_startup() {
    let s = State::new();
    assert_eq!(s.enabled, false);
    assert_eq!(s.threshold, 30);
    assert_eq!(s.mode, Mode::Momentary);
    assert_eq!(s.held, false);
}

#[test]
fn set_enabled_touches_only_the_switch() {
    let mut s = State::new();
    s.set_enabled(true);
    assert!(s.enabled);
    assert_eq!(s.threshold, 30);
    assert_eq!(s.mode, Mode::Momentary);
    assert!(!s.held);
    s.set_enabled(false);
    assert!(!s.enabled);
}

#[test]
fn set_threshold_touches_only_the_level() {
    let mut s = State::new();
    s.set_threshold(77);
    assert_eq!(s.threshold, 77);
    assert!(!s.enabled);
    assert_eq!(s.mode, Mode::Momentary);
}

#[test]
fn set_one_click_picks_the_mode() {
    let mut s = State::new();
    s.set_one_click(true);
    assert_eq!(s.mode, Mode::Sustained);
    s.set_one_click(false);
    assert_eq!(s.mode, Mode::Momentary);
}

#[test]
fn leaving_sustained_drops_the_latch() {
    let mut s = State::new();
    s.set_enabled(true);
    s.set_one_click(true);
    let a = decide(&mut s, true);
    assert_eq!(a, Action::Press);
    assert!(s.held);
    s.set_one_click(false);
    assert!(!s.held);
    assert_eq!(s.mode, Mode::Momentary);
}

#[test]
fn sustained_edge_sequence() {
    let mut s = State::new();
    s.set_enabled(true);
    s.set_one_click(true);
    let blocks = [true, true, false, true];
    let expected = [Action::Press, Action::NoAction, Action::Release, Action::Press];
    for (met, want) in blocks.iter().zip(expected.iter()) {
        let a = decide(&mut s, *met);
        assert_eq!(a, *want);
    }
    assert!(s.held);
}

#[test]
fn momentary_clicks_every_qualifying_block() {
    let mut s = State::new();
    s.set_enabled(true);
    let a1 = decide(&mut s, true);
    let a2 = decide(&mut s, true);
    let a3 = decide(&mut s, false);
    assert_eq!(a1, Action::Click);
    assert_eq!(a2, Action::Click);
    assert_eq!(a3, Action::NoAction);
    assert!(!s.held);
}

#[test]
fn disabling_is_a_hard_reset_not_a_release() {
    let mut s = State::new();
    s.set_enabled(true);
    s.set_one_click(true);
    let a = decide(&mut s, true);
    assert_eq!(a, Action::Press);
    assert!(s.held);
    s.set_enabled(false);
    // A quiet block while disabled: the latch clears without a release.
    let a = decide(&mut s, false);
    assert_eq!(a, Action::NoAction);
    assert!(!s.held);
    // A loud block while disabled is no different.
    let a = decide(&mut s, true);
    assert_eq!(a, Action::NoAction);
    assert!(!s.held);
}

#[test]
fn threshold_round_trip_boundary_is_inclusive() {
    let mut s = State::new();
    s.set_enabled(true);
    s.set_threshold(42);
    let (_, p) = process_block(&mut s, 42);
    assert!(p.met);
    let (_, p) = process_block(&mut s, 41);
    assert!(!p.met);
}

#[test]
fn threshold_met_boundary() {
    assert!(threshold_met(30, 30));
    assert!(threshold_met(31, 30));
    assert!(!threshold_met(29, 30));
    assert!(threshold_met(-5, -10));
}

#[test]
fn momentary_block_end_to_end() {
    let mut s = State::new();
    s.set_enabled(true);
    s.set_threshold(30);
    let (action, payload) = process_block(&mut s, 45);
    assert_eq!(action, Action::Click);
    assert_eq!(payload, Payload { volume: 45, met: true });
    assert!(!s.held);
}

#[test]
fn disabled_block_still_reports_telemetry() {
    let mut s = State::new();
    s.set_enabled(false);
    s.set_threshold(30);
    let (action, payload) = process_block(&mut s, 45);
    assert_eq!(action, Action::NoAction);
    assert!(!s.held);
    assert_eq!(payload, Payload { volume: 45, met: true });
    let (action, payload) = process_block(&mut s, 3);
    assert_eq!(action, Action::NoAction);
    assert_eq!(payload, Payload { volume: 3, met: false });
}
