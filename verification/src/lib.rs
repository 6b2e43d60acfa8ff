//! Hold-to-repeat input automation.
//!
//! The crate holds the decision logic of an input automation tool: it turns raw
//! capture notifications into semantic events, tracks whether the primary mouse
//! button is really held (as opposed to echoes of clicks the tool injected
//! itself), decides when a repeat click is due, and plans the scripted key
//! sequence that follows a real click. Time is always passed in as a number of
//! milliseconds on a monotonic clock chosen by the caller; capturing and
//! injecting input is left to the embedding application.

pub mod automation;
pub mod clock;
pub mod guarantees;
pub mod input;
pub mod platform;
pub mod sequence;
pub mod state;
