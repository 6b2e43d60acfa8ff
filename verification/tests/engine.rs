use arc_raiders_scripts::automation::{
    Automation, Phase, HOLD_THRESHOLD_MS, LOOP_QUANTUM_MS, SYNTHETIC_EVENT_WINDOW_MS,
};
use arc_raiders_scripts::input::InputEvent;
use arc_raiders_scripts::platform::Platform;
use arc_raiders_scripts::sequence::SequenceStep;
use arc_raiders_scripts::state::AppState;

/// Runs the engine millisecond by millisecond from 0 to `until`, feeding it the
/// given events at their times, and returns when clicks went out and whether
/// the engine was ever seen firing.
fn simulate(
    engine: &mut Automation,
    state: &mut AppState,
    events: &[(u64, InputEvent)],
    until: u64,
) -> (Vec<u64>, bool) {
    let mut clicks = Vec::new();
    let mut fired = false;
    let mut now = 0u64;
    while now <= until {
        for (at, event) in events {
            if *at == now {
                engine.handle_event(state, *event, now);
            }
        }
        if engine.phase(state, now) == Phase::HeldFiring {
            fired = true;
        }
        if engine.click_due(state, now) {
            engine.click_sent(state, now);
            clicks.push(now);
        }
        now += 1;
    }
    (clicks, fired)
}

#[test]
fn new_engine_is_idle() {
    let engine = Automation::new();
    let state = AppState::new(Platform::Windows);
    assert!(!engine.is_clicking_active());
    assert_eq!(engine.get_last_real_click(), None);
    assert_eq!(engine.get_last_synthetic_click(), None);
    assert_eq!(engine.get_down_event_count(), 0);
    assert_eq!(engine.phase(&state, 0), Phase::Idle);
    assert!(!engine.click_due(&state, 1_000));
}

#[test]
fn constants_have_their_documented_values() {
    assert_eq!(HOLD_THRESHOLD_MS, 100);
    assert_eq!(SYNTHETIC_EVENT_WINDOW_MS, 30);
    assert_eq!(LOOP_QUANTUM_MS, 1);
}

#[test]
fn press_begins_hold_and_release_ends_it() {
    let mut engine = Automation::new();
    let mut state = AppState::new(Platform::Windows);
    assert!(engine.handle_event(&mut state, InputEvent::MouseButtonDown, 10).is_none());
    assert!(engine.is_clicking_active());
    assert_eq!(engine.get_last_real_click(), Some(10));
    assert_eq!(engine.get_down_event_count(), 1);
    assert_eq!(engine.phase(&state, 10), Phase::HeldPendingThreshold);
    assert!(engine.handle_event(&mut state, InputEvent::MouseButtonUp, 20).is_none());
    assert!(!engine.is_clicking_active());
    assert_eq!(engine.get_last_real_click(), None);
    assert_eq!(engine.get_down_event_count(), 0);
    assert_eq!(engine.phase(&state, 20), Phase::Idle);
}

#[test]
fn held_state_matches_last_event_without_filtering() {
    let d = InputEvent::MouseButtonDown;
    let u = InputEvent::MouseButtonUp;
    let runs: Vec<Vec<InputEvent>> = vec![
        vec![d],
        vec![u],
        vec![d, u],
        vec![u, d],
        vec![d, d],
        vec![d, d, u],
        vec![d, u, d],
        vec![u, u, d, d, u, d],
        vec![d, u, d, u, d, u, d],
    ];
    for run in runs {
        let mut engine = Automation::new();
        let mut state = AppState::new(Platform::Windows);
        let mut now = 0;
        for event in &run {
            engine.handle_event(&mut state, *event, now);
            now += 7;
        }
        assert_eq!(engine.is_clicking_active(), *run.last().unwrap() == d);
    }
}

#[test]
fn alternating_presses_and_releases_track_the_balance() {
    let mut engine = Automation::new();
    let mut state = AppState::new(Platform::Windows);
    let mut balance = 0i64;
    for i in 0..25u64 {
        let event = if i % 2 == 0 {
            balance += 1;
            InputEvent::MouseButtonDown
        } else {
            balance -= 1;
            InputEvent::MouseButtonUp
        };
        engine.handle_event(&mut state, event, i * 3);
        assert!(balance == 0 || balance == 1);
        assert_eq!(engine.is_clicking_active(), balance == 1);
        assert_eq!(engine.is_clicking_active(), balance % 2 == 1);
    }
}

#[test]
fn second_press_during_hold_only_counts() {
    let mut engine = Automation::new();
    let mut state = AppState::new(Platform::Windows);
    engine.handle_event(&mut state, InputEvent::MouseButtonDown, 0);
    engine.handle_event(&mut state, InputEvent::MouseButtonDown, 40);
    assert!(engine.is_clicking_active());
    assert_eq!(engine.get_last_real_click(), Some(0));
    assert_eq!(engine.get_down_event_count(), 2);
}

#[test]
fn release_without_press_keeps_engine_idle() {
    let mut engine = Automation::new();
    let mut state = AppState::new(Platform::Windows);
    engine.handle_event(&mut state, InputEvent::MouseButtonUp, 5);
    assert!(!engine.is_clicking_active());
    assert_eq!(engine.get_down_event_count(), 0);
}

#[test]
fn press_triggers_reload_cancel_only_when_enabled_and_real() {
    let mut engine = Automation::new();
    let mut state = AppState::new(Platform::Windows);
    assert!(engine.handle_event(&mut state, InputEvent::MouseButtonDown, 0).is_none());
    engine.handle_event(&mut state, InputEvent::MouseButtonUp, 10);
    state.set_reload_cancel_enabled(true);
    assert!(engine.handle_event(&mut state, InputEvent::MouseButtonDown, 20).is_some());
    // A second press while the hold is on does not trigger it again.
    assert!(engine.handle_event(&mut state, InputEvent::MouseButtonDown, 30).is_none());
    assert!(engine.handle_event(&mut state, InputEvent::MouseButtonUp, 40).is_none());
    assert!(engine.handle_event(&mut state, InputEvent::MouseButtonUp, 41).is_none());
    // A press inside the echo window is no real press.
    engine.click_sent(&mut state, 100);
    assert!(engine.handle_event(&mut state, InputEvent::MouseButtonDown, 110).is_none());
    assert!(!engine.is_clicking_active());
    // Once the window has passed, a press is real again.
    engine.handle_event(&mut state, InputEvent::MouseButtonUp, 111);
    assert!(engine.handle_event(&mut state, InputEvent::MouseButtonDown, 130).is_some());
}

#[test]
fn triggered_sequence_uses_configured_timing_and_slot() {
    let mut engine = Automation::new();
    let mut state = AppState::new(Platform::Windows);
    state.set_reload_cancel_enabled(true);
    state.set_reload_cancel_timing(90);
    state.set_reload_cancel_weapon_slot(2);
    let steps = engine.handle_event(&mut state, InputEvent::MouseButtonDown, 0).unwrap();
    assert_eq!(steps.len(), 4);
    match steps[0] {
        SequenceStep::Delay { ms } => assert!((85..=95).contains(&ms)),
        _ => panic!("the sequence begins with a delay"),
    }
    match steps[1] {
        SequenceStep::KeyTap { key, hold_ms } => {
            assert_eq!(key, 'q');
            assert!((45..=55).contains(&hold_ms));
        }
        _ => panic!("the second step taps the item key"),
    }
    match steps[2] {
        SequenceStep::Delay { ms } => assert!((85..=95).contains(&ms)),
        _ => panic!("the third step is a delay"),
    }
    match steps[3] {
        SequenceStep::KeyTap { key, hold_ms } => {
            assert_eq!(key, '2');
            assert!((45..=55).contains(&hold_ms));
        }
        _ => panic!("the last step taps the weapon key"),
    }
}

#[test]
fn other_events_trigger_no_sequence() {
    let mut engine = Automation::new();
    let mut state = AppState::new(Platform::Windows);
    state.set_reload_cancel_enabled(true);
    for event in [
        InputEvent::MouseButtonUp,
        InputEvent::WeaponSlot1,
        InputEvent::WeaponSlot2,
        InputEvent::ToggleReloadCancel,
        InputEvent::ToggleReloadCancel,
        InputEvent::QKeyPressed,
    ] {
        assert!(engine.handle_event(&mut state, event, 5).is_none());
    }
}

#[test]
fn no_click_before_threshold() {
    let mut engine = Automation::new();
    let mut state = AppState::new(Platform::Windows);
    state.set_semiauto_enabled(true);
    engine.handle_event(&mut state, InputEvent::MouseButtonDown, 1_000);
    assert!(!engine.click_due(&state, 1_000));
    assert!(!engine.click_due(&state, 1_099));
    assert_eq!(engine.phase(&state, 1_099), Phase::HeldPendingThreshold);
    assert!(engine.click_due(&state, 1_100));
    assert_eq!(engine.phase(&state, 1_100), Phase::HeldFiring);
}

#[test]
fn no_click_when_repeat_clicks_are_off() {
    let mut engine = Automation::new();
    let mut state = AppState::new(Platform::Windows);
    engine.handle_event(&mut state, InputEvent::MouseButtonDown, 0);
    assert!(!engine.click_due(&state, 500));
    assert_eq!(engine.phase(&state, 500), Phase::HeldPendingThreshold);
}

#[test]
fn rate_limiter_spaces_clicks() {
    let mut engine = Automation::new();
    let mut state = AppState::new(Platform::Windows);
    state.set_semiauto_enabled(true);
    state.set_semiauto_timing(45);
    engine.handle_event(&mut state, InputEvent::MouseButtonDown, 0);
    assert!(engine.click_due(&state, 100));
    engine.click_sent(&mut state, 100);
    assert_eq!(state.get_last_click_time(), Some(100));
    assert_eq!(engine.get_last_synthetic_click(), Some(100));
    assert!(!engine.click_due(&state, 101));
    assert!(!engine.click_due(&state, 144));
    assert!(engine.click_due(&state, 145));
}

#[test]
fn clock_that_runs_backwards_counts_as_no_time_passed() {
    let mut engine = Automation::new();
    let mut state = AppState::new(Platform::Windows);
    state.set_semiauto_enabled(true);
    engine.handle_event(&mut state, InputEvent::MouseButtonDown, 500);
    assert!(!engine.click_due(&state, 100));
    engine.click_sent(&mut state, 700);
    assert!(engine.in_echo_window(650));
    assert!(!engine.click_due(&state, 650));
}

#[test]
fn echo_window_bounds() {
    let mut engine = Automation::new();
    let mut state = AppState::new(Platform::Windows);
    assert!(!engine.in_echo_window(0));
    engine.click_sent(&mut state, 1_000);
    assert!(engine.in_echo_window(1_000));
    assert!(engine.in_echo_window(1_029));
    assert!(!engine.in_echo_window(1_030));
}

#[test]
fn echoes_of_own_click_do_not_flip_hold() {
    let mut engine = Automation::new();
    let mut state = AppState::new(Platform::Windows);
    state.set_semiauto_enabled(true);
    engine.handle_event(&mut state, InputEvent::MouseButtonDown, 0);
    engine.click_sent(&mut state, 100);
    // The echo of the click: a press and a release right after it.
    engine.handle_event(&mut state, InputEvent::MouseButtonDown, 101);
    assert!(engine.is_clicking_active());
    assert_eq!(engine.get_last_real_click(), Some(0));
    assert_eq!(engine.get_down_event_count(), 2);
    engine.handle_event(&mut state, InputEvent::MouseButtonUp, 102);
    assert!(engine.is_clicking_active());
    assert_eq!(engine.get_last_real_click(), Some(0));
    assert_eq!(engine.get_down_event_count(), 1);
}

#[test]
fn echo_press_on_idle_engine_begins_no_hold() {
    let mut engine = Automation::new();
    let mut state = AppState::new(Platform::Windows);
    engine.click_sent(&mut state, 100);
    engine.handle_event(&mut state, InputEvent::MouseButtonDown, 110);
    assert!(!engine.is_clicking_active());
    assert_eq!(engine.get_down_event_count(), 1);
}

#[test]
fn release_in_echo_window_ends_hold_when_counter_reaches_zero() {
    let mut engine = Automation::new();
    let mut state = AppState::new(Platform::Windows);
    engine.handle_event(&mut state, InputEvent::MouseButtonDown, 0);
    engine.click_sent(&mut state, 100);
    // The real release arrives before any echo does.
    engine.handle_event(&mut state, InputEvent::MouseButtonUp, 105);
    assert!(!engine.is_clicking_active());
    assert_eq!(engine.get_down_event_count(), 0);
}

#[test]
fn enough_releases_always_end_the_hold() {
    let mut engine = Automation::new();
    let mut state = AppState::new(Platform::Windows);
    engine.handle_event(&mut state, InputEvent::MouseButtonDown, 0);
    engine.click_sent(&mut state, 100);
    engine.handle_event(&mut state, InputEvent::MouseButtonDown, 101);
    engine.handle_event(&mut state, InputEvent::MouseButtonDown, 102);
    assert_eq!(engine.get_down_event_count(), 3);
    engine.handle_event(&mut state, InputEvent::MouseButtonUp, 103);
    engine.handle_event(&mut state, InputEvent::MouseButtonUp, 104);
    assert!(engine.is_clicking_active());
    engine.handle_event(&mut state, InputEvent::MouseButtonUp, 105);
    assert!(!engine.is_clicking_active());
}

#[test]
fn toggle_hotkey_flips_reload_cancel_and_twice_restores() {
    let mut engine = Automation::new();
    let mut state = AppState::new(Platform::Windows);
    assert!(!state.is_reload_cancel_enabled());
    assert!(engine.handle_event(&mut state, InputEvent::ToggleReloadCancel, 0).is_none());
    assert!(state.is_reload_cancel_enabled());
    engine.handle_event(&mut state, InputEvent::ToggleReloadCancel, 1);
    assert!(!state.is_reload_cancel_enabled());
    assert!(!engine.is_clicking_active());
    assert_eq!(engine.get_down_event_count(), 0);
}

#[test]
fn item_key_switches_reload_cancel_off() {
    let mut engine = Automation::new();
    let mut state = AppState::new(Platform::Windows);
    state.set_reload_cancel_enabled(true);
    engine.handle_event(&mut state, InputEvent::QKeyPressed, 0);
    assert!(!state.is_reload_cancel_enabled());
    engine.handle_event(&mut state, InputEvent::QKeyPressed, 1);
    assert!(!state.is_reload_cancel_enabled());
}

#[test]
fn weapon_keys_select_the_slot() {
    let mut engine = Automation::new();
    let mut state = AppState::new(Platform::Windows);
    state.set_reload_cancel_enabled(true);
    engine.handle_event(&mut state, InputEvent::WeaponSlot2, 0);
    assert_eq!(state.get_reload_cancel_weapon_slot(), 2);
    assert!(state.is_reload_cancel_enabled());
    engine.handle_event(&mut state, InputEvent::WeaponSlot1, 1);
    assert_eq!(state.get_reload_cancel_weapon_slot(), 1);
    assert!(state.is_reload_cancel_enabled());
}

#[test]
fn weapon_keys_flip_reload_cancel_when_auto_toggle_is_on() {
    let mut engine = Automation::new();
    let mut state = AppState::new(Platform::Windows);
    state.set_reload_cancel_enabled(true);
    state.set_auto_toggle_by_weapon(true);
    engine.handle_event(&mut state, InputEvent::WeaponSlot2, 0);
    assert_eq!(state.get_reload_cancel_weapon_slot(), 2);
    assert!(!state.is_reload_cancel_enabled());
    // Selecting the slot that is already selected changes nothing.
    engine.handle_event(&mut state, InputEvent::WeaponSlot2, 1);
    assert!(!state.is_reload_cancel_enabled());
    engine.handle_event(&mut state, InputEvent::WeaponSlot1, 2);
    assert_eq!(state.get_reload_cancel_weapon_slot(), 1);
    assert!(state.is_reload_cancel_enabled());
}

#[test]
fn short_click_never_fires() {
    // Defaults, press at 0 ms, release at 50 ms.
    let mut engine = Automation::new();
    let mut state = AppState::new(Platform::Windows);
    assert_eq!(state.get_semiauto_timing(), 60);
    assert!(!state.is_reload_cancel_enabled());
    let events = [(0, InputEvent::MouseButtonDown), (50, InputEvent::MouseButtonUp)];
    let (clicks, fired) = simulate(&mut engine, &mut state, &events, 400);
    assert!(clicks.is_empty());
    assert!(!fired);

    // The same with repeat clicks switched on: the press is too short.
    let mut engine = Automation::new();
    let mut state = AppState::new(Platform::Windows);
    state.set_semiauto_enabled(true);
    let (clicks, fired) = simulate(&mut engine, &mut state, &events, 400);
    assert!(clicks.is_empty());
    assert!(!fired);
}

#[test]
fn long_hold_fires_at_the_configured_rate() {
    // Defaults with repeat clicks on, press at 0 ms, release at 500 ms.
    let mut engine = Automation::new();
    let mut state = AppState::new(Platform::Windows);
    state.set_semiauto_enabled(true);
    let events = [(0, InputEvent::MouseButtonDown), (500, InputEvent::MouseButtonUp)];
    let (clicks, fired) = simulate(&mut engine, &mut state, &events, 900);
    assert!(fired);
    assert_eq!(clicks, vec![100, 160, 220, 280, 340, 400, 460]);
    assert!(clicks[0] >= 100);
    for pair in clicks.windows(2) {
        assert!(pair[1] - pair[0] >= 60);
    }
    assert!(clicks.iter().all(|at| *at <= 500));
    assert!(!engine.is_clicking_active());
}

#[test]
fn click_spacing_holds_for_every_supported_interval() {
    let mut interval = 30;
    while interval <= 150 {
        let mut engine = Automation::new();
        let mut state = AppState::new(Platform::Windows);
        state.set_semiauto_enabled(true);
        state.set_semiauto_timing(interval);
        let events = [(0, InputEvent::MouseButtonDown), (1_000, InputEvent::MouseButtonUp)];
        let (clicks, _) = simulate(&mut engine, &mut state, &events, 1_200);
        assert!(clicks.len() >= 2);
        assert_eq!(clicks[0], 100);
        for pair in clicks.windows(2) {
            assert_eq!(pair[1] - pair[0], interval);
        }
        interval += 15;
    }
}

#[test]
fn hold_survives_echoes_of_every_click() {
    let mut engine = Automation::new();
    let mut state = AppState::new(Platform::Windows);
    state.set_semiauto_enabled(true);
    engine.handle_event(&mut state, InputEvent::MouseButtonDown, 0);
    let mut clicks = Vec::new();
    let mut now = 0u64;
    while now < 400 {
        if engine.click_due(&state, now) {
            engine.click_sent(&mut state, now);
            clicks.push(now);
            engine.handle_event(&mut state, InputEvent::MouseButtonDown, now);
            engine.handle_event(&mut state, InputEvent::MouseButtonUp, now + 1);
            assert!(engine.is_clicking_active());
            assert_eq!(engine.get_down_event_count(), 1);
        }
        now += 1;
    }
    assert_eq!(clicks, vec![100, 160, 220, 280, 340]);
    engine.handle_event(&mut state, InputEvent::MouseButtonUp, 400);
    assert!(!engine.is_clicking_active());
}
