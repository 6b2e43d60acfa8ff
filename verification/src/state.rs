//! The configuration shared between the settings panel and the engine.

use vstd::prelude::*;
use crate::clock::stamp_view;
use crate::platform::{default_timing, get_default_timing, Platform};

verus! {

/// Default spacing between repeat clicks, in milliseconds.
pub const DEFAULT_SEMIAUTO_TIMING_MS: u64 = 60;

/// Smallest timing, in milliseconds, that the settings panel offers.
pub const MIN_TIMING_MS: u64 = 30;

/// Largest timing, in milliseconds, that the settings panel offers.
pub const MAX_TIMING_MS: u64 = 150;

/// The weapon slot the reload cancel sequence returns to by default.
pub const DEFAULT_WEAPON_SLOT: u8 = 1;

/// The mathematical content of an `AppState`.
pub struct AppStateView {
    /// Master switch of the repeat click feature.
    pub semiauto_enabled: bool,
    /// Master switch of the reload cancel sequence.
    pub reload_cancel_enabled: bool,
    /// Delay between the keys of the reload cancel sequence, in milliseconds.
    pub reload_cancel_timing: nat,
    /// Minimum spacing between repeat clicks, in milliseconds.
    pub semiauto_timing: nat,
    /// The weapon slot the reload cancel sequence returns to.
    pub reload_cancel_weapon_slot: nat,
    /// Whether switching weapons flips the reload cancel switch.
    pub auto_toggle_by_weapon: bool,
    /// Whether the capture side currently sees the primary button down.
    pub mouse_held: bool,
    /// When the last repeat click was sent.
    pub last_click_time: Option<nat>,
}

impl AppStateView {
    /// The weapon slot is one of the two that exist.
    pub open spec fn wf(self) -> bool {
        1 <= self.reload_cancel_weapon_slot <= 2
    }

    /// Both timings lie within the bounds of the settings panel.
    pub open spec fn timings_in_bounds(self) -> bool {
        &&& MIN_TIMING_MS <= self.reload_cancel_timing <= MAX_TIMING_MS
        &&& MIN_TIMING_MS <= self.semiauto_timing <= MAX_TIMING_MS
    }

    /// Whether any of the two features is switched on.
    pub open spec fn active(self) -> bool {
        self.semiauto_enabled || self.reload_cancel_enabled
    }

    /// The configuration a fresh process starts with.
    pub open spec fn initial(platform: Platform) -> AppStateView {
        AppStateView {
            semiauto_enabled: false,
            reload_cancel_enabled: false,
            reload_cancel_timing: default_timing(platform) as nat,
            semiauto_timing: DEFAULT_SEMIAUTO_TIMING_MS as nat,
            reload_cancel_weapon_slot: DEFAULT_WEAPON_SLOT as nat,
            auto_toggle_by_weapon: false,
            mouse_held: false,
            last_click_time: None,
        }
    }

    /// The configuration after the player switched to weapon `slot`: the
    /// sequence now returns to that slot, and where switching weapons is set
    /// to flip the reload cancel switch, a change of slot flips it.
    pub open spec fn with_current_weapon_slot(self, slot: nat) -> AppStateView {
        let target: nat = clamp_slot(slot);
        AppStateView {
            reload_cancel_weapon_slot: target,
            reload_cancel_enabled: if self.auto_toggle_by_weapon
                && target != self.reload_cancel_weapon_slot {
                !self.reload_cancel_enabled
            } else {
                self.reload_cancel_enabled
            },
            ..self
        }
    }
}

/// The nearest valid weapon slot.
pub open spec fn clamp_slot(slot: nat) -> nat {
    if slot <= 1 {
        1
    } else {
        2
    }
}

/// Configuration and transient flags of the application.
#[derive(Clone, Copy, Debug)]
pub struct AppState {
    semiauto_enabled: bool,
    reload_cancel_enabled: bool,
    reload_cancel_timing: u64,
    semiauto_timing: u64,
    reload_cancel_weapon_slot: u8,
    auto_toggle_by_weapon: bool,
    mouse_held: bool,
    last_click_time: Option<u64>,
}

impl View for AppState {
    type V = AppStateView;

    closed spec fn view(&self) -> AppStateView {
        AppStateView {
            semiauto_enabled: self.semiauto_enabled,
            reload_cancel_enabled: self.reload_cancel_enabled,
            reload_cancel_timing: self.reload_cancel_timing as nat,
            semiauto_timing: self.semiauto_timing as nat,
            reload_cancel_weapon_slot: self.reload_cancel_weapon_slot as nat,
            auto_toggle_by_weapon: self.auto_toggle_by_weapon,
            mouse_held: self.mouse_held,
            last_click_time: stamp_view(self.last_click_time),
        }
    }
}

impl AppState {
    /// Every value of the type holds a valid weapon slot.
    #[verifier::type_invariant]
    pub open spec fn inv(&self) -> bool {
        self@.wf()
    }

    /// The configuration a fresh process starts with on the given platform:
    /// both features off, repeat clicks 60 ms apart, the platform's default
    /// for the reload cancel timing, weapon slot 1.
    pub fn new(platform: Platform) -> (state: AppState)
        ensures
            state@ == AppStateView::initial(platform),
            state@.wf(),
            state@.timings_in_bounds(),
    {
        AppState {
            semiauto_enabled: false,
            reload_cancel_enabled: false,
            reload_cancel_timing: get_default_timing(platform),
            semiauto_timing: DEFAULT_SEMIAUTO_TIMING_MS,
            reload_cancel_weapon_slot: DEFAULT_WEAPON_SLOT,
            auto_toggle_by_weapon: false,
            mouse_held: false,
            last_click_time: None,
        }
    }

    /// Whether the repeat click feature is switched on.
    pub fn is_semiauto_enabled(&self) -> (enabled: bool)
        ensures
            enabled == self@.semiauto_enabled,
    {
        self.semiauto_enabled
    }

    /// Whether the reload cancel sequence is switched on.
    pub fn is_reload_cancel_enabled(&self) -> (enabled: bool)
        ensures
            enabled == self@.reload_cancel_enabled,
    {
        self.reload_cancel_enabled
    }

    /// Delay between the keys of the reload cancel sequence, in milliseconds.
    pub fn get_reload_cancel_timing(&self) -> (timing: u64)
        ensures
            timing == self@.reload_cancel_timing,
    {
        self.reload_cancel_timing
    }

    /// Minimum spacing between repeat clicks, in milliseconds.
    pub fn get_semiauto_timing(&self) -> (timing: u64)
        ensures
            timing == self@.semiauto_timing,
    {
        self.semiauto_timing
    }

    /// The weapon slot the reload cancel sequence returns to: 1 or 2.
    pub fn get_reload_cancel_weapon_slot(&self) -> (slot: u8)
        ensures
            slot == self@.reload_cancel_weapon_slot,
            1 <= slot <= 2,
    {
        proof {
            use_type_invariant(self);
        }
        self.reload_cancel_weapon_slot
    }

    /// Whether switching weapons flips the reload cancel switch.
    pub fn get_auto_toggle_by_weapon(&self) -> (enabled: bool)
        ensures
            enabled == self@.auto_toggle_by_weapon,
    {
        self.auto_toggle_by_weapon
    }

    /// Whether the capture side currently sees the primary button down.
    pub fn is_mouse_held(&self) -> (held: bool)
        ensures
            held == self@.mouse_held,
    {
        self.mouse_held
    }

    /// When the last repeat click was sent, if one was.
    pub fn get_last_click_time(&self) -> (time: Option<u64>)
        ensures
            stamp_view(time) == self@.last_click_time,
    {
        self.last_click_time
    }

    /// Whether any of the two features is switched on.
    pub fn is_active(&self) -> (active: bool)
        ensures
            active == self@.active(),
    {
        self.semiauto_enabled || self.reload_cancel_enabled
    }

    /// Whether both timings lie within the bounds of the settings panel.
    pub fn timings_in_bounds(&self) -> (within: bool)
        ensures
            within == self@.timings_in_bounds(),
    {
        MIN_TIMING_MS <= self.reload_cancel_timing && self.reload_cancel_timing <= MAX_TIMING_MS
            && MIN_TIMING_MS <= self.semiauto_timing && self.semiauto_timing <= MAX_TIMING_MS
    }

    /// Switches the repeat click feature on or off.
    pub fn set_semiauto_enabled(&mut self, enabled: bool)
        ensures
            final(self)@ == (AppStateView { semiauto_enabled: enabled, ..old(self)@ }),
    {
        proof {
            use_type_invariant(&*self);
        }
        self.semiauto_enabled = enabled;
    }

    /// Switches the reload cancel sequence on or off.
    pub fn set_reload_cancel_enabled(&mut self, enabled: bool)
        ensures
            final(self)@ == (AppStateView { reload_cancel_enabled: enabled, ..old(self)@ }),
    {
        proof {
            use_type_invariant(&*self);
        }
        self.reload_cancel_enabled = enabled;
    }

    /// Stores the delay between the keys of the reload cancel sequence as it
    /// is given; the settings panel supplies values within its bounds.
    pub fn set_reload_cancel_timing(&mut self, timing: u64)
        ensures
            final(self)@ == (AppStateView { reload_cancel_timing: timing as nat, ..old(self)@ }),
    {
        proof {
            use_type_invariant(&*self);
        }
        self.reload_cancel_timing = timing;
    }

    /// Stores the minimum spacing between repeat clicks as it is given; the
    /// settings panel supplies values within its bounds.
    pub fn set_semiauto_timing(&mut self, timing: u64)
        ensures
            final(self)@ == (AppStateView { semiauto_timing: timing as nat, ..old(self)@ }),
    {
        proof {
            use_type_invariant(&*self);
        }
        self.semiauto_timing = timing;
    }

    /// Stores the weapon slot the reload cancel sequence returns to, clamped
    /// to the two slots that exist: 0 counts as 1, anything above 2 as 2.
    pub fn set_reload_cancel_weapon_slot(&mut self, slot: u8)
        ensures
            final(self)@ == (AppStateView {
                reload_cancel_weapon_slot: clamp_slot(slot as nat),
                ..old(self)@
            }),
    {
        self.reload_cancel_weapon_slot = if slot <= 1 { 1 } else { 2 };
    }

    /// Records that the player switched to weapon `slot` (clamped like the
    /// configured slot). The sequence returns to that slot from now on, and
    /// where switching weapons is set to flip the reload cancel switch, a
    /// change of slot flips it.
    pub fn set_current_weapon_slot(&mut self, slot: u8)
        ensures
            final(self)@ == old(self)@.with_current_weapon_slot(slot as nat),
    {
        let target: u8 = if slot <= 1 { 1 } else { 2 };
        let flip = self.auto_toggle_by_weapon && target != self.reload_cancel_weapon_slot;
        let enabled = if flip { !self.reload_cancel_enabled } else { self.reload_cancel_enabled };
        *self = AppState { reload_cancel_weapon_slot: target, reload_cancel_enabled: enabled, ..*self };
    }

    /// Sets whether switching weapons flips the reload cancel switch.
    pub fn set_auto_toggle_by_weapon(&mut self, enabled: bool)
        ensures
            final(self)@ == (AppStateView { auto_toggle_by_weapon: enabled, ..old(self)@ }),
    {
        proof {
            use_type_invariant(&*self);
        }
        self.auto_toggle_by_weapon = enabled;
    }

    /// Records whether the capture side sees the primary button down.
    pub fn set_mouse_held(&mut self, held: bool)
        ensures
            final(self)@ == (AppStateView { mouse_held: held, ..old(self)@ }),
    {
        proof {
            use_type_invariant(&*self);
        }
        self.mouse_held = held;
    }

    /// Records when the last repeat click was sent.
    pub fn set_last_click_time(&mut self, time_ms: u64)
        ensures
            final(self)@ == (AppStateView { last_click_time: Some(time_ms as nat), ..old(self)@ }),
    {
        proof {
            use_type_invariant(&*self);
        }
        self.last_click_time = Some(time_ms);
    }
}

} // verus!
