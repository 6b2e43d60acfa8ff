//! Timing jitter and the scripted reload cancel sequence.
//!
//! The sequence is planned here and carried out by the caller: a plan is a
//! list of delays and key taps whose durations were already perturbed, so that
//! the keys do not go out in a perfectly regular rhythm.

use vstd::prelude::*;
use crate::state::AppState;

verus! {

/// The largest perturbation of a duration, in milliseconds, either way.
pub const JITTER_RANGE_MS: i64 = 5;

/// No perturbed duration is shorter than this many milliseconds.
pub const MIN_DELAY_MS: u64 = 5;

/// How long a key of the sequence is held before jitter, in milliseconds.
pub const KEY_HOLD_MS: u64 = 50;

/// The key that uses the quick item.
pub const ITEM_KEY: char = 'q';

/// The key that selects the first weapon slot.
pub const SLOT_1_KEY: char = '1';

/// The key that selects the second weapon slot.
pub const SLOT_2_KEY: char = '2';

/// The largest duration that can be represented, in milliseconds.
pub const MAX_DELAY_MS: u64 = 0xffff_ffff_ffff_ffff;

/// One step of a scripted sequence.
#[derive(Clone, Copy, Debug, PartialEq, Eq, Structural)]
pub enum SequenceStep {
    /// Wait for `ms` milliseconds.
    Delay { ms: u64 },
    /// Press `key`, hold it for `hold_ms` milliseconds, release it.
    KeyTap { key: char, hold_ms: u64 },
}

/// A duration of `base` milliseconds perturbed by `offset`: their sum, but
/// never less than the minimum delay, and capped at the largest duration.
pub open spec fn jittered(base: int, offset: int) -> int {
    let shifted: int = base + offset;
    if shifted < MIN_DELAY_MS {
        MIN_DELAY_MS as int
    } else if shifted > MAX_DELAY_MS {
        MAX_DELAY_MS as int
    } else {
        shifted
    }
}

/// Whether `offset` is a perturbation that the engine may draw.
pub open spec fn is_jitter_offset(offset: int) -> bool {
    -JITTER_RANGE_MS <= offset <= JITTER_RANGE_MS
}

/// The key that selects weapon `slot`. Whatever is not slot 1 is slot 2.
pub open spec fn weapon_key(slot: int) -> char {
    if slot == 1 {
        SLOT_1_KEY
    } else {
        SLOT_2_KEY
    }
}

/// The reload cancel sequence with its four durations given: wait, tap the
/// item key, wait again, tap the key of the weapon slot.
pub open spec fn reload_cancel_steps(
    slot: int,
    lead_delay: u64,
    item_hold: u64,
    switch_delay: u64,
    weapon_hold: u64,
) -> Seq<SequenceStep> {
    seq![
        SequenceStep::Delay { ms: lead_delay },
        SequenceStep::KeyTap { key: ITEM_KEY, hold_ms: item_hold },
        SequenceStep::Delay { ms: switch_delay },
        SequenceStep::KeyTap { key: weapon_key(slot), hold_ms: weapon_hold },
    ]
}

/// Whether `steps` is a reload cancel sequence for `base` and `slot` as the
/// engine may plan it: each wait is `base` and each hold is the key hold
/// time, all four perturbed by offsets of their own.
pub open spec fn is_reload_cancel_plan(steps: Seq<SequenceStep>, base: int, slot: int) -> bool {
    exists|a: int, b: int, c: int, d: int|
        {
            &&& is_jitter_offset(a) && is_jitter_offset(b)
            &&& is_jitter_offset(c) && is_jitter_offset(d)
            &&& steps == #[trigger] reload_cancel_steps(
                slot,
                jittered(base, a) as u64,
                jittered(KEY_HOLD_MS as int, b) as u64,
                jittered(base, c) as u64,
                jittered(KEY_HOLD_MS as int, d) as u64,
            )
        }
}

/// `rand::Rng::gen_range` on `rand::thread_rng()` with the inclusive range
/// from `low` to `high`. The contract claims what the range promises: the
/// value lies within the bounds. The call panics on an empty range, which the
/// precondition rules out, and when the operating system cannot seed the
/// generator.
#[verifier::external_body]
fn random_in_range(low: i64, high: i64) -> (value: i64)
    requires
        low <= high,
    ensures
        low <= value <= high,
{
    rand::Rng::gen_range(&mut rand::thread_rng(), low..=high)
}

/// Perturbs `base_ms` by `offset`: adds them up, floors the sum at the
/// minimum delay and caps it at the largest duration.
pub fn apply_jitter(base_ms: u64, offset: i64) -> (delay_ms: u64)
    ensures
        delay_ms == jittered(base_ms as int, offset as int),
{
    if offset >= 0 {
        let shifted: u64 = base_ms.saturating_add(offset as u64);
        if shifted < MIN_DELAY_MS {
            MIN_DELAY_MS
        } else {
            shifted
        }
    } else {
        let back: u64 = if offset == i64::MIN {
            0x8000_0000_0000_0000
        } else {
            (-offset) as u64
        };
        if base_ms >= back && base_ms - back >= MIN_DELAY_MS {
            base_ms - back
        } else {
            MIN_DELAY_MS
        }
    }
}

/// Perturbs `base_ms` by a random offset of at most the jitter range either
/// way. The result is never below the minimum delay.
pub fn add_jitter(base_ms: u64) -> (delay_ms: u64)
    ensures
        exists|offset: int|
            is_jitter_offset(offset) && delay_ms == #[trigger] jittered(base_ms as int, offset),
        delay_ms >= MIN_DELAY_MS,
{
    let offset: i64 = random_in_range(-JITTER_RANGE_MS, JITTER_RANGE_MS);
    apply_jitter(base_ms, offset)
}

/// The key that selects weapon `slot`.
pub fn weapon_slot_key(slot: u8) -> (key: char)
    ensures
        key == weapon_key(slot as int),
{
    if slot == 1 {
        SLOT_1_KEY
    } else {
        SLOT_2_KEY
    }
}

/// Lays out the reload cancel sequence for weapon `slot` with the four
/// durations as given.
pub fn reload_cancel_sequence(
    slot: u8,
    lead_delay: u64,
    item_hold: u64,
    switch_delay: u64,
    weapon_hold: u64,
) -> (steps: Vec<SequenceStep>)
    ensures
        steps@ == reload_cancel_steps(slot as int, lead_delay, item_hold, switch_delay, weapon_hold),
{
    let mut steps: Vec<SequenceStep> = Vec::new();
    steps.push(SequenceStep::Delay { ms: lead_delay });
    steps.push(SequenceStep::KeyTap { key: ITEM_KEY, hold_ms: item_hold });
    steps.push(SequenceStep::Delay { ms: switch_delay });
    steps.push(SequenceStep::KeyTap { key: weapon_slot_key(slot), hold_ms: weapon_hold });
    steps
}

/// Plans the reload cancel sequence for the configured timing and weapon
/// slot, drawing fresh jitter for each of its four durations. The caller
/// carries the steps out in order and goes on to the next step when one fails.
pub fn execute_reload_cancel(state: &AppState) -> (steps: Vec<SequenceStep>)
    ensures
        is_reload_cancel_plan(
            steps@,
            state@.reload_cancel_timing as int,
            state@.reload_cancel_weapon_slot as int,
        ),
{
    let base_timing: u64 = state.get_reload_cancel_timing();
    let weapon_slot: u8 = state.get_reload_cancel_weapon_slot();
    let lead_delay: u64 = add_jitter(base_timing);
    let item_hold: u64 = add_jitter(KEY_HOLD_MS);
    let switch_delay: u64 = add_jitter(base_timing);
    let weapon_hold: u64 = add_jitter(KEY_HOLD_MS);
    let steps = reload_cancel_sequence(weapon_slot, lead_delay, item_hold, switch_delay, weapon_hold);
    proof {
        let base: int = base_timing as int;
        let hold: int = KEY_HOLD_MS as int;
        let a: int = choose|o: int| is_jitter_offset(o) && lead_delay == #[trigger] jittered(base, o);
        let b: int = choose|o: int| is_jitter_offset(o) && item_hold == #[trigger] jittered(hold, o);
        let c: int = choose|o: int| is_jitter_offset(o) && switch_delay == #[trigger] jittered(base, o);
        let d: int = choose|o: int| is_jitter_offset(o) && weapon_hold == #[trigger] jittered(hold, o);
        assert(steps@ == reload_cancel_steps(
            weapon_slot as int,
            jittered(base, a) as u64,
            jittered(hold, b) as u64,
            jittered(base, c) as u64,
            jittered(hold, d) as u64,
        ));
    }
    steps
}

} // verus!
