//! The input classifier: from raw capture notifications to semantic events.

use vstd::prelude::*;
use crate::clock::{elapsed_ms, elapsed_since};
use crate::state::{AppState, AppStateView};

verus! {

/// A semantic event, as the engine consumes it.
#[derive(Clone, Copy, Debug, PartialEq, Eq, Structural)]
pub enum InputEvent {
    /// The primary mouse button went down.
    MouseButtonDown,
    /// The primary mouse button went up.
    MouseButtonUp,
    /// The hotkey that switches the reload cancel sequence on and off.
    ToggleReloadCancel,
    /// The player selected weapon slot 1.
    WeaponSlot1,
    /// The player selected weapon slot 2.
    WeaponSlot2,
    /// The player used an item.
    QKeyPressed,
}

/// A mouse button as the capture facility names it.
#[derive(Clone, Copy, Debug, PartialEq, Eq, Structural)]
pub enum MouseButton {
    Left,
    Right,
    Middle,
    Other,
}

/// A key as the capture facility names it, as far as the classifier cares.
#[derive(Clone, Copy, Debug, PartialEq, Eq, Structural)]
pub enum KeyCode {
    F2,
    Num1,
    Num2,
    KeyQ,
    Other,
}

/// A raw notification of the capture facility.
#[derive(Clone, Copy, Debug, PartialEq, Eq, Structural)]
pub enum RawInput {
    ButtonPress(MouseButton),
    ButtonRelease(MouseButton),
    KeyPress(KeyCode),
    KeyRelease(KeyCode),
    /// Pointer movement, wheel turns and whatever else is captured.
    Other,
}

/// The semantic event that a raw notification stands for, if any.
pub open spec fn classified(raw: RawInput) -> Option<InputEvent> {
    match raw {
        RawInput::ButtonPress(MouseButton::Left) => Some(InputEvent::MouseButtonDown),
        RawInput::ButtonRelease(MouseButton::Left) => Some(InputEvent::MouseButtonUp),
        RawInput::KeyPress(KeyCode::F2) => Some(InputEvent::ToggleReloadCancel),
        RawInput::KeyPress(KeyCode::Num1) => Some(InputEvent::WeaponSlot1),
        RawInput::KeyPress(KeyCode::Num2) => Some(InputEvent::WeaponSlot2),
        RawInput::KeyPress(KeyCode::KeyQ) => Some(InputEvent::QKeyPressed),
        _ => None,
    }
}

/// What a raw notification says about the primary button: `Some(true)` when
/// it went down, `Some(false)` when it went up, `None` when it says nothing.
pub open spec fn primary_button_state(raw: RawInput) -> Option<bool> {
    match raw {
        RawInput::ButtonPress(MouseButton::Left) => Some(true),
        RawInput::ButtonRelease(MouseButton::Left) => Some(false),
        _ => None,
    }
}

/// The configuration after the capture side saw `raw`: the held flag follows
/// the primary button, nothing else changes.
pub open spec fn state_after_raw(state: AppStateView, raw: RawInput) -> AppStateView {
    match primary_button_state(raw) {
        Some(held) => AppStateView { mouse_held: held, ..state },
        None => state,
    }
}

/// Whether a click may be sent at `now`: none was sent yet, or the last one
/// lies at least `min_delay` milliseconds back.
pub open spec fn click_allowed(last_click_time: Option<nat>, now: nat, min_delay: nat) -> bool {
    match last_click_time {
        Some(last) => elapsed_ms(last, now) >= min_delay,
        None => true,
    }
}

/// Turns a raw notification into the semantic event to forward. Every
/// press and release of the primary button is forwarded, whoever caused it;
/// telling real input from echoes is the engine's business.
pub fn classify(raw: RawInput) -> (event: Option<InputEvent>)
    ensures
        event == classified(raw),
{
    match raw {
        RawInput::ButtonPress(MouseButton::Left) => Some(InputEvent::MouseButtonDown),
        RawInput::ButtonRelease(MouseButton::Left) => Some(InputEvent::MouseButtonUp),
        RawInput::KeyPress(KeyCode::F2) => Some(InputEvent::ToggleReloadCancel),
        RawInput::KeyPress(KeyCode::Num1) => Some(InputEvent::WeaponSlot1),
        RawInput::KeyPress(KeyCode::Num2) => Some(InputEvent::WeaponSlot2),
        RawInput::KeyPress(KeyCode::KeyQ) => Some(InputEvent::QKeyPressed),
        _ => None,
    }
}

/// The body of the capture callback: updates the held flag at once, so that it
/// can be read without waiting for the engine, and returns the event to put
/// on the engine's queue. It never blocks and never fails.
pub fn on_raw_input(state: &mut AppState, raw: RawInput) -> (event: Option<InputEvent>)
    ensures
        final(state)@ == state_after_raw(old(state)@, raw),
        event == classified(raw),
{
    match raw {
        RawInput::ButtonPress(MouseButton::Left) => {
            state.set_mouse_held(true);
        },
        RawInput::ButtonRelease(MouseButton::Left) => {
            state.set_mouse_held(false);
        },
        _ => {},
    }
    classify(raw)
}

/// The rate limiter: whether enough time has passed at `now_ms` since the last
/// click that was sent for another one to go out.
pub fn can_send_click(state: &AppState, now_ms: u64, min_delay_ms: u64) -> (allowed: bool)
    ensures
        allowed == click_allowed(state@.last_click_time, now_ms as nat, min_delay_ms as nat),
{
    match state.get_last_click_time() {
        Some(last) => elapsed_since(last, now_ms) >= min_delay_ms,
        None => true,
    }
}

} // verus!
