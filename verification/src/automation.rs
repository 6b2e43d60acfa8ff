//! The automation engine: hold tracking, echo filtering and the repeat click
//! decision.
//!
//! The engine is a state machine that is stepped from outside. Once per round
//! the caller drains its event queue into `handle_event`, carrying out the
//! key sequence that an event may call for, then asks `click_due`, injects the
//! click and reports it with `click_sent`.

use vstd::prelude::*;
use crate::clock::{elapsed_ms, elapsed_since, stamp_view};
use crate::input::{can_send_click, click_allowed, InputEvent};
use crate::sequence::{execute_reload_cancel, is_reload_cancel_plan, SequenceStep};
use crate::state::{AppState, AppStateView};

verus! {

/// How long the button has to be held before repeat clicks start, in
/// milliseconds. Shorter presses are single deliberate clicks.
pub const HOLD_THRESHOLD_MS: u64 = 100;

/// How long after a click of its own the engine takes button notifications
/// for echoes of that click, in milliseconds.
pub const SYNTHETIC_EVENT_WINDOW_MS: u64 = 30;

/// How long the caller sleeps between two rounds, in milliseconds.
pub const LOOP_QUANTUM_MS: u64 = 1;

/// The largest value the counter of pending button presses can take.
pub const MAX_PENDING_DOWNS: u64 = 0xffff_ffff_ffff_ffff;

/// Where the engine stands with respect to the primary button.
#[derive(Clone, Copy, Debug, PartialEq, Eq, Structural)]
pub enum Phase {
    /// The button is not held.
    Idle,
    /// The button is held, and repeat clicks have not started.
    HeldPendingThreshold,
    /// The button is held long enough and repeat clicks are being sent.
    HeldFiring,
}

/// The mathematical content of an `Automation`.
pub struct AutomationView {
    /// Whether the primary button counts as held by the user.
    pub clicking_active: bool,
    /// When the hold began.
    pub last_real_click: Option<nat>,
    /// When the engine last sent a click of its own.
    pub last_synthetic_click: Option<nat>,
    /// Button presses seen that no release has answered yet.
    pub down_event_count: nat,
}

impl AutomationView {
    /// A hold has a beginning and at least one pending press, and there is no
    /// beginning without a hold.
    pub open spec fn wf(self) -> bool {
        &&& self.clicking_active <==> self.last_real_click is Some
        &&& self.clicking_active ==> self.down_event_count >= 1
        &&& self.down_event_count <= MAX_PENDING_DOWNS
    }

    /// The engine before any event.
    pub open spec fn initial() -> AutomationView {
        AutomationView {
            clicking_active: false,
            last_real_click: None,
            last_synthetic_click: None,
            down_event_count: 0,
        }
    }
}

/// Whether a button notification at `now` falls into the echo window of the
/// engine's last own click.
pub open spec fn is_synthetic(a: AutomationView, now: nat) -> bool {
    match a.last_synthetic_click {
        Some(sent) => elapsed_ms(sent, now) < SYNTHETIC_EVENT_WINDOW_MS,
        None => false,
    }
}

/// Whether a press at `now` begins a hold: it is no echo and no hold is on.
pub open spec fn begins_hold(a: AutomationView, now: nat) -> bool {
    !is_synthetic(a, now) && !a.clicking_active
}

/// The counter of pending presses after one more press.
pub open spec fn pending_after_down(count: nat) -> nat {
    if count < MAX_PENDING_DOWNS {
        count + 1
    } else {
        count
    }
}

/// The counter of pending presses after one more release.
pub open spec fn pending_after_up(count: nat) -> nat {
    if count > 0 {
        (count - 1) as nat
    } else {
        0
    }
}

/// Whether a release at `now` ends the hold: it is no echo, or it answers the
/// last pending press.
pub open spec fn ends_hold(a: AutomationView, now: nat) -> bool {
    !is_synthetic(a, now) || pending_after_up(a.down_event_count) == 0
}

/// The engine after a press of the primary button at `now`.
pub open spec fn after_button_down(a: AutomationView, now: nat) -> AutomationView {
    if begins_hold(a, now) {
        AutomationView {
            clicking_active: true,
            last_real_click: Some(now),
            down_event_count: pending_after_down(a.down_event_count),
            ..a
        }
    } else {
        AutomationView { down_event_count: pending_after_down(a.down_event_count), ..a }
    }
}

/// The engine after a release of the primary button at `now`.
pub open spec fn after_button_up(a: AutomationView, now: nat) -> AutomationView {
    if ends_hold(a, now) {
        AutomationView {
            clicking_active: false,
            last_real_click: None,
            down_event_count: 0,
            ..a
        }
    } else {
        AutomationView { down_event_count: pending_after_up(a.down_event_count), ..a }
    }
}

/// The engine after `event` at `now`. Only the primary button moves it.
pub open spec fn automation_after_event(a: AutomationView, event: InputEvent, now: nat)
    -> AutomationView {
    match event {
        InputEvent::MouseButtonDown => after_button_down(a, now),
        InputEvent::MouseButtonUp => after_button_up(a, now),
        _ => a,
    }
}

/// The configuration after `event`. The hotkey flips the reload cancel switch,
/// a weapon key selects the slot, and using an item switches reload cancel
/// off; the primary button leaves the configuration alone.
pub open spec fn state_after_event(s: AppStateView, event: InputEvent) -> AppStateView {
    match event {
        InputEvent::MouseButtonDown => s,
        InputEvent::MouseButtonUp => s,
        InputEvent::ToggleReloadCancel => AppStateView {
            reload_cancel_enabled: !s.reload_cancel_enabled,
            ..s
        },
        InputEvent::WeaponSlot1 => s.with_current_weapon_slot(1),
        InputEvent::WeaponSlot2 => s.with_current_weapon_slot(2),
        InputEvent::QKeyPressed => AppStateView { reload_cancel_enabled: false, ..s },
    }
}

/// Whether `event` at `now` calls for the reload cancel sequence: it is a
/// press that begins a hold while the sequence is switched on.
pub open spec fn triggers_reload_cancel(
    a: AutomationView,
    s: AppStateView,
    event: InputEvent,
    now: nat,
) -> bool {
    event == InputEvent::MouseButtonDown && begins_hold(a, now) && s.reload_cancel_enabled
}

/// Whether the hold has lasted for the threshold at `now`.
pub open spec fn hold_threshold_reached(a: AutomationView, now: nat) -> bool {
    match a.last_real_click {
        Some(since) => elapsed_ms(since, now) >= HOLD_THRESHOLD_MS,
        None => false,
    }
}

/// The phase of the engine at `now`.
pub open spec fn phase_at(a: AutomationView, s: AppStateView, now: nat) -> Phase {
    if !a.clicking_active {
        Phase::Idle
    } else if s.semiauto_enabled && hold_threshold_reached(a, now) {
        Phase::HeldFiring
    } else {
        Phase::HeldPendingThreshold
    }
}

/// Whether a repeat click is to be sent at `now`: the engine is firing and the
/// rate limiter lets a click through.
pub open spec fn repeat_click_due(a: AutomationView, s: AppStateView, now: nat) -> bool {
    &&& phase_at(a, s, now) == Phase::HeldFiring
    &&& click_allowed(s.last_click_time, now, s.semiauto_timing)
}

/// The engine after it sent a click of its own at `now`.
pub open spec fn automation_after_click(a: AutomationView, now: nat) -> AutomationView {
    AutomationView { last_synthetic_click: Some(now), ..a }
}

/// The configuration after the engine sent a click of its own at `now`.
pub open spec fn state_after_click(s: AppStateView, now: nat) -> AppStateView {
    AppStateView { last_click_time: Some(now), ..s }
}

/// What the engine remembers of the primary button.
#[derive(Clone, Copy, Debug)]
pub struct Automation {
    clicking_active: bool,
    last_real_click: Option<u64>,
    last_synthetic_click: Option<u64>,
    down_event_count: u64,
}

impl View for Automation {
    type V = AutomationView;

    closed spec fn view(&self) -> AutomationView {
        AutomationView {
            clicking_active: self.clicking_active,
            last_real_click: stamp_view(self.last_real_click),
            last_synthetic_click: stamp_view(self.last_synthetic_click),
            down_event_count: self.down_event_count as nat,
        }
    }
}

impl Automation {
    /// Every value of the type is well formed.
    #[verifier::type_invariant]
    pub open spec fn inv(&self) -> bool {
        self@.wf()
    }

    /// An engine that has seen nothing yet.
    pub fn new() -> (engine: Automation)
        ensures
            engine@ == AutomationView::initial(),
            engine@.wf(),
    {
        Automation {
            clicking_active: false,
            last_real_click: None,
            last_synthetic_click: None,
            down_event_count: 0,
        }
    }

    /// Whether the primary button counts as held by the user.
    pub fn is_clicking_active(&self) -> (held: bool)
        ensures
            held == self@.clicking_active,
            self@.wf(),
    {
        proof {
            use_type_invariant(self);
        }
        self.clicking_active
    }

    /// When the hold began, if one is on.
    pub fn get_last_real_click(&self) -> (since: Option<u64>)
        ensures
            stamp_view(since) == self@.last_real_click,
            self@.wf(),
    {
        proof {
            use_type_invariant(self);
        }
        self.last_real_click
    }

    /// When the engine last sent a click of its own, if it ever did.
    pub fn get_last_synthetic_click(&self) -> (sent: Option<u64>)
        ensures
            stamp_view(sent) == self@.last_synthetic_click,
            self@.wf(),
    {
        proof {
            use_type_invariant(self);
        }
        self.last_synthetic_click
    }

    /// Button presses seen that no release has answered yet.
    pub fn get_down_event_count(&self) -> (count: u64)
        ensures
            count == self@.down_event_count,
            self@.wf(),
    {
        proof {
            use_type_invariant(self);
        }
        self.down_event_count
    }

    /// Whether a button notification at `now_ms` is taken for an echo of the
    /// engine's own last click.
    pub fn in_echo_window(&self, now_ms: u64) -> (synthetic: bool)
        ensures
            synthetic == is_synthetic(self@, now_ms as nat),
    {
        match self.last_synthetic_click {
            Some(sent) => elapsed_since(sent, now_ms) < SYNTHETIC_EVENT_WINDOW_MS,
            None => false,
        }
    }

    /// Advances the engine and the configuration by one event that arrived at
    /// `now_ms`. Where the event calls for the reload cancel sequence, the
    /// sequence is planned with the timing and the weapon slot configured at
    /// that moment and handed back for the caller to carry out at once.
    ///
    /// A press outside the echo window begins a hold unless one is on. A
    /// release ends the hold when it comes outside the echo window, and also,
    /// echo or not, when it answers the last pending press. The other events
    /// change the configuration only.
    pub fn handle_event(&mut self, state: &mut AppState, event: InputEvent, now_ms: u64) -> (sequence: Option<Vec<SequenceStep>>)
        ensures
            final(self)@ == automation_after_event(old(self)@, event, now_ms as nat),
            final(state)@ == state_after_event(old(state)@, event),
            sequence is Some <==> triggers_reload_cancel(
                old(self)@,
                old(state)@,
                event,
                now_ms as nat,
            ),
            sequence matches Some(steps) ==> is_reload_cancel_plan(
                steps@,
                old(state)@.reload_cancel_timing as int,
                old(state)@.reload_cancel_weapon_slot as int,
            ),
            final(self)@.wf(),
    {
        proof {
            use_type_invariant(&*self);
        }
        let synthetic = self.in_echo_window(now_ms);
        match event {
            InputEvent::MouseButtonDown => {
                let count: u64 = if self.down_event_count < MAX_PENDING_DOWNS {
                    self.down_event_count + 1
                } else {
                    self.down_event_count
                };
                if !synthetic && !self.clicking_active {
                    *self = Automation {
                        clicking_active: true,
                        last_real_click: Some(now_ms),
                        down_event_count: count,
                        ..*self
                    };
                    if state.is_reload_cancel_enabled() {
                        Some(execute_reload_cancel(state))
                    } else {
                        None
                    }
                } else {
                    *self = Automation { down_event_count: count, ..*self };
                    None
                }
            },
            InputEvent::MouseButtonUp => {
                let count: u64 = if self.down_event_count > 0 {
                    self.down_event_count - 1
                } else {
                    0
                };
                if !synthetic || count == 0 {
                    *self = Automation {
                        clicking_active: false,
                        last_real_click: None,
                        down_event_count: 0,
                        ..*self
                    };
                } else {
                    *self = Automation { down_event_count: count, ..*self };
                }
                None
            },
            InputEvent::ToggleReloadCancel => {
                let current = state.is_reload_cancel_enabled();
                state.set_reload_cancel_enabled(!current);
                None
            },
            InputEvent::WeaponSlot1 => {
                state.set_current_weapon_slot(1);
                None
            },
            InputEvent::WeaponSlot2 => {
                state.set_current_weapon_slot(2);
                None
            },
            InputEvent::QKeyPressed => {
                if state.is_reload_cancel_enabled() {
                    state.set_reload_cancel_enabled(false);
                }
                None
            },
        }
    }

    /// The phase of the engine at `now_ms`.
    pub fn phase(&self, state: &AppState, now_ms: u64) -> (phase: Phase)
        ensures
            phase == phase_at(self@, state@, now_ms as nat),
    {
        proof {
            use_type_invariant(self);
        }
        if !self.clicking_active {
            Phase::Idle
        } else {
            let reached = match self.last_real_click {
                Some(since) => elapsed_since(since, now_ms) >= HOLD_THRESHOLD_MS,
                None => false,
            };
            if state.is_semiauto_enabled() && reached {
                Phase::HeldFiring
            } else {
                Phase::HeldPendingThreshold
            }
        }
    }

    /// Whether a repeat click is to be sent at `now_ms`: repeat clicks are
    /// switched on, the button has been held for the threshold, and the last
    /// click that was sent lies at least the configured spacing back.
    pub fn click_due(&self, state: &AppState, now_ms: u64) -> (due: bool)
        ensures
            due == repeat_click_due(self@, state@, now_ms as nat),
    {
        match self.phase(state, now_ms) {
            Phase::HeldFiring => can_send_click(state, now_ms, state.get_semiauto_timing()),
            _ => false,
        }
    }

    /// Records that a repeat click was injected at `now_ms`: the rate limiter
    /// counts from it, and button notifications that follow it closely are
    /// taken for its echoes.
    pub fn click_sent(&mut self, state: &mut AppState, now_ms: u64)
        ensures
            final(self)@ == automation_after_click(old(self)@, now_ms as nat),
            final(state)@ == state_after_click(old(state)@, now_ms as nat),
            final(self)@.wf(),
    {
        proof {
            use_type_invariant(&*self);
        }
        state.set_last_click_time(now_ms);
        *self = Automation { last_synthetic_click: Some(now_ms), ..*self };
    }
}

} // verus!
