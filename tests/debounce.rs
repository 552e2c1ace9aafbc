use debouncer::debounce::{elapsed_ms, DebounceState, Debouncer, CHANGE_STATE_INTERVAL};

fn high_debouncer() -> Debouncer {
    let mut d = Debouncer::new();
    assert!(!d.is_high(0, true));
    assert!(d.is_high(CHANGE_STATE_INTERVAL, true));
    assert_eq!(d.current_state(), DebounceState::High);
    d
}

#[test]
fn starts_stable_low() {
    let d = Debouncer::new();
    assert_eq!(d.current_state(), DebounceState::Low);
}

#[test]
fn output_tracks_confirmed_level() {
    let mut d = Debouncer::new();
    let inputs = [true, false, true, true, false, true, false, false];
    let mut t: u32 = 0;
    for raw in inputs {
        let out = d.is_high(t, raw);
        let expected = matches!(
            d.current_state(),
            DebounceState::High | DebounceState::PossibleLow { .. }
        );
        assert_eq!(out, expected);
        t += 130;
    }
}

#[test]
fn stable_low_stays_without_contrary_reading() {
    let mut d = Debouncer::new();
    for t in [0u32, 10, 1_000, 100_000, u32::MAX, 5] {
        assert!(!d.is_high(t, false));
        assert_eq!(d.current_state(), DebounceState::Low);
    }
}

#[test]
fn stable_high_stays_without_contrary_reading() {
    let mut d = high_debouncer();
    for t in [300u32, 300, 10_000, u32::MAX, 0] {
        assert!(d.is_high(t, true));
        assert_eq!(d.current_state(), DebounceState::High);
    }
}

#[test]
fn short_press_never_registers() {
    let mut d = Debouncer::new();
    for t in [0u32, 50, 100, 150, 200] {
        assert!(!d.is_high(t, true));
        assert_eq!(d.current_state(), DebounceState::PossibleHigh { start_time: 0 });
    }
    assert!(!d.is_high(210, false));
    assert_eq!(d.current_state(), DebounceState::Low);
}

#[test]
fn long_press_confirms_at_interval() {
    let mut d = Debouncer::new();
    assert!(!d.is_high(0, true));
    assert!(!d.is_high(100, true));
    assert!(!d.is_high(200, true));
    assert!(d.is_high(300, true));
    assert_eq!(d.current_state(), DebounceState::High);
}

#[test]
fn confirms_exactly_at_interval_boundary() {
    let mut d = Debouncer::new();
    assert!(!d.is_high(1_000, true));
    assert!(!d.is_high(1_249, true));
    assert!(d.is_high(1_250, true));
}

#[test]
fn long_press_confirms_across_wraparound() {
    let since = u32::MAX - 50;
    let mut d = Debouncer::new();
    assert!(!d.is_high(since, true));
    assert!(!d.is_high(since.wrapping_add(100), true));
    assert!(!d.is_high(since.wrapping_add(200), true));
    assert!(d.is_high(since.wrapping_add(300), true));
    assert_eq!(since.wrapping_add(300), 249);
}

#[test]
fn elapsed_wraps_past_zero() {
    assert_eq!(elapsed_ms(49, u32::MAX - 50), 100);
    assert_eq!(elapsed_ms(300, 0), 300);
    assert_eq!(elapsed_ms(0, 0), 0);
    assert_eq!(elapsed_ms(0, 1), u32::MAX);
}

#[test]
fn short_release_keeps_output_high() {
    let mut d = high_debouncer();
    assert!(d.is_high(1_000, false));
    assert_eq!(d.current_state(), DebounceState::PossibleLow { start_time: 1_000 });
    assert!(d.is_high(1_100, true));
    assert_eq!(d.current_state(), DebounceState::High);
}

#[test]
fn long_release_confirms_low() {
    let mut d = high_debouncer();
    assert!(d.is_high(1_000, false));
    assert!(d.is_high(1_200, false));
    assert!(!d.is_high(1_250, false));
    assert_eq!(d.current_state(), DebounceState::Low);
}

#[test]
fn bounce_faster_than_interval_never_registers() {
    let mut d = Debouncer::new();
    let mut t: u32 = 0;
    for i in 0..40u32 {
        assert!(!d.is_high(t, i % 2 == 0));
        t += 100;
    }
}

#[test]
fn failed_read_counts_as_low() {
    let mut d = Debouncer::new();
    assert!(!d.poll(0, Some(true)));
    assert!(!d.poll(100, None));
    assert_eq!(d.current_state(), DebounceState::Low);
    assert!(!d.poll(200, Some(true)));
    assert!(!d.poll(300, Some(true)));
    assert!(d.poll(450, Some(true)));
    assert!(d.poll(500, None));
    assert_eq!(d.current_state(), DebounceState::PossibleLow { start_time: 500 });
}
