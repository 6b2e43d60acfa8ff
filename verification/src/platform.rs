//! Platform capabilities: which privileges and timer hints each operating
//! system needs, and the timing defaults tuned for it.

use vstd::prelude::*;

verus! {

/// The operating system the application runs on.
#[derive(Clone, Copy, Debug, PartialEq, Eq, Structural)]
pub enum Platform {
    Windows,
    MacOs,
    Other,
}

/// What the operating system reported when it was asked about privileges.
/// Only the fields that belong to the platform at hand are looked at.
#[derive(Clone, Copy, Debug)]
pub struct PermissionProbe {
    /// The administrator flag as Windows reports it: nonzero for an elevated user.
    pub admin_flag: i32,
    /// Whether macOS let the process create an event source.
    pub event_source_created: bool,
    /// Whether macOS let the process create an event from that source.
    /// It is only meaningful when the source was created.
    pub test_event_created: bool,
}

/// Timer resolution requested on Windows, in milliseconds.
pub const WINDOWS_TIMER_PERIOD_MS: u32 = 1;

/// Default delay between the keys of the reload cancel sequence on Windows.
pub const WINDOWS_DEFAULT_TIMING_MS: u64 = 75;

/// Default delay between the keys of the reload cancel sequence on macOS.
pub const MACOS_DEFAULT_TIMING_MS: u64 = 100;

/// Default delay between the keys of the reload cancel sequence elsewhere.
pub const FALLBACK_DEFAULT_TIMING_MS: u64 = 75;

/// The timer resolution a platform needs for millisecond sleeps, if it needs one.
pub open spec fn timer_period(platform: Platform) -> Option<u32> {
    match platform {
        Platform::Windows => Some(WINDOWS_TIMER_PERIOD_MS),
        Platform::MacOs => None,
        Platform::Other => None,
    }
}

/// Whether the probe shows the privileges that input capture and injection need.
pub open spec fn has_permissions(platform: Platform, probe: PermissionProbe) -> bool {
    match platform {
        Platform::Windows => probe.admin_flag != 0,
        Platform::MacOs => probe.event_source_created && probe.test_event_created,
        Platform::Other => true,
    }
}

/// The platform-tuned default of the reload cancel timing.
pub open spec fn default_timing(platform: Platform) -> u64 {
    match platform {
        Platform::Windows => WINDOWS_DEFAULT_TIMING_MS,
        Platform::MacOs => MACOS_DEFAULT_TIMING_MS,
        Platform::Other => FALLBACK_DEFAULT_TIMING_MS,
    }
}

/// Whether input monitoring is started at all.
pub open spec fn monitoring_allowed(platform: Platform, permitted: bool) -> bool {
    permitted && platform != Platform::MacOs
}

/// The timer resolution to request from the operating system at startup so
/// that short sleeps are precise. `None` means the platform's default timing
/// is good enough and nothing is requested.
pub fn init_timing(platform: Platform) -> (period_ms: Option<u32>)
    ensures
        period_ms == timer_period(platform),
{
    match platform {
        Platform::Windows => Some(WINDOWS_TIMER_PERIOD_MS),
        Platform::MacOs => None,
        Platform::Other => None,
    }
}

/// The timer resolution request to withdraw at shutdown: exactly the one
/// that `init_timing` asked for.
pub fn cleanup_timing(platform: Platform) -> (period_ms: Option<u32>)
    ensures
        period_ms == timer_period(platform),
{
    init_timing(platform)
}

/// Decides from the probe whether the application has the privileges it
/// needs. Windows wants an elevated user. macOS wants both an event source and
/// an event made from it. Other platforms need nothing special.
pub fn check_permissions(platform: Platform, probe: &PermissionProbe) -> (permitted: bool)
    ensures
        permitted == has_permissions(platform, *probe),
{
    match platform {
        Platform::Windows => probe.admin_flag != 0,
        Platform::MacOs => probe.event_source_created && probe.test_event_created,
        Platform::Other => true,
    }
}

/// Default delay, in milliseconds, between the keys of the reload cancel
/// sequence on the given platform.
pub fn get_default_timing(platform: Platform) -> (timing_ms: u64)
    ensures
        timing_ms == default_timing(platform),
{
    match platform {
        Platform::Windows => WINDOWS_DEFAULT_TIMING_MS,
        Platform::MacOs => MACOS_DEFAULT_TIMING_MS,
        Platform::Other => FALLBACK_DEFAULT_TIMING_MS,
    }
}

/// Decides whether the listener and the engine are started. They are started
/// only with the needed privileges, and never on macOS, where capture cannot
/// be relied on; the settings panel stays usable either way.
pub fn should_start_monitoring(platform: Platform, permitted: bool) -> (start: bool)
    ensures
        start == monitoring_allowed(platform, permitted),
{
    match platform {
        Platform::MacOs => false,
        _ => permitted,
    }
}

} // verus!
