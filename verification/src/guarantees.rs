//! What holds of the engine over whole runs, proved from the step functions.
//!
//! A run is a sequence of moments. At each moment either an input event
//! arrives or a repeat click of the engine goes out. The theorems below speak
//! of the state that the step functions of the engine produce along a run.

use vstd::prelude::*;
use crate::automation::{
    after_button_down, after_button_up, automation_after_click, automation_after_event,
    begins_hold, ends_hold, is_synthetic, phase_at, repeat_click_due, state_after_click,
    state_after_event, AutomationView, Phase, HOLD_THRESHOLD_MS, MAX_PENDING_DOWNS,
    SYNTHETIC_EVENT_WINDOW_MS,
};
use crate::input::InputEvent;
use crate::sequence::{jittered, reload_cancel_steps, SequenceStep, MIN_DELAY_MS, SLOT_1_KEY, SLOT_2_KEY};
use crate::state::AppStateView;

verus! {

/// The engine together with the configuration it works on.
pub struct Snapshot {
    pub automation: AutomationView,
    pub state: AppStateView,
}

/// What happens at a moment of a run.
pub enum Step {
    /// An input event arrives.
    Event(InputEvent),
    /// A repeat click goes out, after the engine was found due at `polled_at`.
    Click { polled_at: nat },
}

/// One moment of a run: what happens, and when.
pub struct Moment {
    pub at: nat,
    pub step: Step,
}

/// The snapshot after one moment.
pub open spec fn after_moment(w: Snapshot, m: Moment) -> Snapshot {
    match m.step {
        Step::Event(event) => Snapshot {
            automation: automation_after_event(w.automation, event, m.at),
            state: state_after_event(w.state, event),
        },
        Step::Click { polled_at } => Snapshot {
            automation: automation_after_click(w.automation, m.at),
            state: state_after_click(w.state, m.at),
        },
    }
}

/// The snapshot after a whole run.
pub open spec fn after_run(w: Snapshot, run: Seq<Moment>) -> Snapshot
    decreases run.len(),
{
    if run.len() == 0 {
        w
    } else {
        after_moment(after_run(w, run.drop_last()), run.last())
    }
}

/// Time does not go backwards along the run.
pub open spec fn in_time_order(run: Seq<Moment>) -> bool {
    forall|i: int, j: int| 0 <= i <= j < run.len() ==> (#[trigger] run[i]).at <= (#[trigger] run[j]).at
}

/// Whether moment `i` of the run is one the engine allows: a click goes out
/// only when the engine, asked at `polled_at`, said that one was due, and it
/// is recorded no earlier than that.
pub open spec fn moment_allowed(w: Snapshot, run: Seq<Moment>, i: int) -> bool {
    match run[i].step {
        Step::Event(_) => true,
        Step::Click { polled_at } => {
            let before = after_run(w, run.take(i));
            &&& polled_at <= run[i].at
            &&& repeat_click_due(before.automation, before.state, polled_at)
        },
    }
}

/// The run is one that a caller who keeps to the engine's answers can
/// produce: time goes forward and every click was due.
pub open spec fn follows_protocol(w: Snapshot, run: Seq<Moment>) -> bool {
    &&& in_time_order(run)
    &&& forall|i: int| 0 <= i < run.len() ==> #[trigger] moment_allowed(w, run, i)
}

/// Whether the moment is a press or a release of the primary button.
pub open spec fn is_button_moment(m: Moment) -> bool {
    m.step == Step::Event(InputEvent::MouseButtonDown) || m.step == Step::Event(
        InputEvent::MouseButtonUp,
    )
}

/// Whether the run consists of presses and releases of the primary button.
pub open spec fn button_events_only(run: Seq<Moment>) -> bool {
    forall|i: int| 0 <= i < run.len() ==> is_button_moment(#[trigger] run[i])
}

/// Whether the run consists of releases of the primary button.
pub open spec fn releases_only(run: Seq<Moment>) -> bool {
    forall|i: int|
        0 <= i < run.len() ==> (#[trigger] run[i]).step == Step::Event(InputEvent::MouseButtonUp)
}

/// Whether no moment of the run falls into the echo window of `a`.
pub open spec fn outside_echo_window(a: AutomationView, run: Seq<Moment>) -> bool {
    forall|i: int| 0 <= i < run.len() ==> !is_synthetic(a, (#[trigger] run[i]).at)
}

/// Presses minus releases in the run.
pub open spec fn balance(run: Seq<Moment>) -> int
    decreases run.len(),
{
    if run.len() == 0 {
        0
    } else if run.last().step == Step::Event(InputEvent::MouseButtonDown) {
        balance(run.drop_last()) + 1
    } else if run.last().step == Step::Event(InputEvent::MouseButtonUp) {
        balance(run.drop_last()) - 1
    } else {
        balance(run.drop_last())
    }
}

/// Whether the run is what one button produces: it begins with a press, and
/// presses and releases take turns.
pub open spec fn presses_and_releases_alternate(run: Seq<Moment>) -> bool {
    &&& button_events_only(run)
    &&& run.len() > 0 ==> run[0].step == Step::Event(InputEvent::MouseButtonDown)
    &&& forall|i: int| 0 < i < run.len() ==> (#[trigger] run[i]).step != run[i - 1].step
}

/// An event leaves a well-formed engine well formed and a valid weapon slot
/// valid.
pub proof fn event_preserves_wf(w: Snapshot, event: InputEvent, now: nat)
    ensures
        w.automation.wf() ==> automation_after_event(w.automation, event, now).wf(),
        w.state.wf() ==> state_after_event(w.state, event).wf(),
{
}

/// Whatever happens in a run, the engine stays well formed.
pub proof fn run_preserves_wf(w: Snapshot, run: Seq<Moment>)
    requires
        w.automation.wf(),
    ensures
        after_run(w, run).automation.wf(),
    decreases run.len(),
{
    if run.len() > 0 {
        run_preserves_wf(w, run.drop_last());
    }
}

/// Whatever happens in a run, the weapon slot stays one of the two that
/// exist.
pub proof fn run_preserves_weapon_slot(w: Snapshot, run: Seq<Moment>)
    requires
        w.state.wf(),
    ensures
        after_run(w, run).state.wf(),
    decreases run.len(),
{
    if run.len() > 0 {
        run_preserves_weapon_slot(w, run.drop_last());
    }
}

/// Input events never touch the click spacing, the switch of the repeat click
/// feature, or the record of the engine's own clicks.
pub proof fn events_leave_clicks_alone(w: Snapshot, event: InputEvent, now: nat)
    ensures
        state_after_event(w.state, event).semiauto_timing == w.state.semiauto_timing,
        state_after_event(w.state, event).semiauto_enabled == w.state.semiauto_enabled,
        state_after_event(w.state, event).last_click_time == w.state.last_click_time,
        automation_after_event(w.automation, event, now).last_synthetic_click
            == w.automation.last_synthetic_click,
{
}

/// A run that consists of input events only leaves the record of the
/// engine's own clicks as it was.
proof fn lemma_button_run_keeps_echo_window(w: Snapshot, run: Seq<Moment>)
    requires
        button_events_only(run),
    ensures
        after_run(w, run).automation.last_synthetic_click == w.automation.last_synthetic_click,
    decreases run.len(),
{
    if run.len() > 0 {
        let head = run.drop_last();
        assert forall|i: int| 0 <= i < head.len() implies is_button_moment(#[trigger] head[i]) by {
            assert(head[i] == run[i]);
        }
        lemma_button_run_keeps_echo_window(w, head);
        assert(is_button_moment(run[run.len() - 1]));
    }
}

/// With no echo filtering in play, the button counts as held after a run of
/// presses and releases exactly when the last of them was a press, which is
/// also exactly when presses are pending.
pub proof fn held_follows_last_button_event(w: Snapshot, run: Seq<Moment>)
    requires
        run.len() > 0,
        button_events_only(run),
        outside_echo_window(w.automation, run),
    ensures
        after_run(w, run).automation.clicking_active == (run.last().step == Step::Event(
            InputEvent::MouseButtonDown,
        )),
        w.automation.wf() ==> after_run(w, run).automation.clicking_active == (after_run(
            w,
            run,
        ).automation.down_event_count > 0),
{
    if w.automation.wf() {
        run_preserves_wf(w, run.drop_last());
    }
    let head = run.drop_last();
    assert forall|i: int| 0 <= i < head.len() implies is_button_moment(#[trigger] head[i]) by {
        assert(head[i] == run[i]);
    }
    lemma_button_run_keeps_echo_window(w, head);
    let last = run[run.len() - 1];
    assert(is_button_moment(last));
    assert(!is_synthetic(w.automation, last.at));
}

/// Where presses and releases take turns, beginning with a press, and no
/// echo filtering is in play, there is at most one press more than there are
/// releases, and the button counts as held exactly when there is one: when
/// the difference is odd. Of the empty run this holds on an idle engine.
pub proof fn held_is_parity_of_balance(w: Snapshot, run: Seq<Moment>)
    requires
        presses_and_releases_alternate(run),
        outside_echo_window(w.automation, run),
        run.len() == 0 ==> !w.automation.clicking_active,
    ensures
        0 <= balance(run) <= 1,
        after_run(w, run).automation.clicking_active == (balance(run) == 1),
        after_run(w, run).automation.clicking_active == (balance(run) % 2 == 1),
    decreases run.len(),
{
    if run.len() > 0 {
        let head = run.drop_last();
        let last = run[run.len() - 1];
        assert(is_button_moment(last));
        assert forall|i: int| 0 <= i < head.len() implies is_button_moment(#[trigger] head[i]) by {
            assert(head[i] == run[i]);
        }
        assert forall|i: int| 0 < i < head.len() implies (#[trigger] head[i]).step != head[i
            - 1].step by {
            assert(head[i] == run[i]);
            assert(head[i - 1] == run[i - 1]);
        }
        assert forall|i: int| 0 <= i < head.len() implies !is_synthetic(
            w.automation,
            (#[trigger] head[i]).at,
        ) by {
            assert(head[i] == run[i]);
        }
        if head.len() > 0 {
            assert(head[0] == run[0]);
            assert(head.last() == run[run.len() - 2]);
            assert(run[run.len() - 1].step != run[run.len() - 2].step);
            held_follows_last_button_event(w, head);
            held_is_parity_of_balance(w, head);
        } else {
            assert(balance(head) == 0);
        }
        held_follows_last_button_event(w, run);
    }
}

/// A press or release that arrives within the echo window of a click the
/// engine sent is taken for an echo. A press then never changes whether the
/// button counts as held. A release ends the hold only when it answers the
/// last pending press; otherwise it changes nothing but the count.
pub proof fn echo_does_not_flip_hold(a: AutomationView, event: InputEvent, sent: nat, now: nat)
    requires
        a.last_synthetic_click == Some(sent),
        sent <= now < sent + SYNTHETIC_EVENT_WINDOW_MS,
        event == InputEvent::MouseButtonDown || event == InputEvent::MouseButtonUp,
    ensures
        is_synthetic(a, now),
        event == InputEvent::MouseButtonDown ==> {
            &&& automation_after_event(a, event, now).clicking_active == a.clicking_active
            &&& automation_after_event(a, event, now).last_real_click == a.last_real_click
        },
        event == InputEvent::MouseButtonUp && a.down_event_count > 1 ==> {
            &&& automation_after_event(a, event, now).clicking_active == a.clicking_active
            &&& automation_after_event(a, event, now).last_real_click == a.last_real_click
            &&& automation_after_event(a, event, now).down_event_count == a.down_event_count - 1
        },
        event == InputEvent::MouseButtonUp && a.down_event_count <= 1 ==> {
            &&& !automation_after_event(a, event, now).clicking_active
            &&& automation_after_event(a, event, now).down_event_count == 0
        },
{
}

/// The echo of a click, a press and a release that both arrive within the
/// echo window, leaves the engine exactly as it was after the click: the hold
/// survives it, and an idle engine stays idle.
pub proof fn echo_pair_is_absorbed(a: AutomationView, sent: nat, press_at: nat, release_at: nat)
    requires
        a.wf(),
        a.down_event_count < MAX_PENDING_DOWNS,
        sent <= press_at < sent + SYNTHETIC_EVENT_WINDOW_MS,
        sent <= release_at < sent + SYNTHETIC_EVENT_WINDOW_MS,
    ensures
        ({
            let clicked = automation_after_click(a, sent);
            let pressed = automation_after_event(clicked, InputEvent::MouseButtonDown, press_at);
            automation_after_event(pressed, InputEvent::MouseButtonUp, release_at) == clicked
        }),
{
}

/// After a run of releases, the hold is over or the pending presses are down
/// by the length of the run.
proof fn lemma_releases_use_up_presses(w: Snapshot, run: Seq<Moment>)
    requires
        w.automation.wf(),
        releases_only(run),
    ensures
        after_run(w, run).automation.wf(),
        !after_run(w, run).automation.clicking_active || after_run(
            w,
            run,
        ).automation.down_event_count + run.len() <= w.automation.down_event_count,
    decreases run.len(),
{
    if run.len() > 0 {
        let head = run.drop_last();
        assert forall|i: int| 0 <= i < head.len() implies (#[trigger] head[i]).step == Step::Event(
            InputEvent::MouseButtonUp,
        ) by {
            assert(head[i] == run[i]);
        }
        lemma_releases_use_up_presses(w, head);
        assert(run[run.len() - 1].step == Step::Event(InputEvent::MouseButtonUp));
    }
}

/// The engine cannot get stuck in a hold: as many releases as there are
/// pending presses end it, whenever they arrive and whether or not they are
/// taken for echoes.
pub proof fn releases_end_hold(w: Snapshot, run: Seq<Moment>)
    requires
        w.automation.wf(),
        releases_only(run),
        run.len() >= w.automation.down_event_count,
    ensures
        !after_run(w, run).automation.clicking_active,
{
    lemma_releases_use_up_presses(w, run);
}

/// No moment of a run changes the timings or switches repeat clicks on or
/// off: those are for the settings panel to change.
pub proof fn run_keeps_click_spacing(w: Snapshot, run: Seq<Moment>)
    ensures
        after_run(w, run).state.semiauto_timing == w.state.semiauto_timing,
        after_run(w, run).state.reload_cancel_timing == w.state.reload_cancel_timing,
        after_run(w, run).state.semiauto_enabled == w.state.semiauto_enabled,
    decreases run.len(),
{
    if run.len() > 0 {
        run_keeps_click_spacing(w, run.drop_last());
    }
}

/// Once a click has gone out at moment `i`, the rate limiter counts from a
/// time that is no earlier, for as long as time goes forward.
proof fn lemma_last_click_is_recorded(w: Snapshot, run: Seq<Moment>, i: int, k: int)
    requires
        in_time_order(run),
        0 <= i < k <= run.len(),
        run[i].step is Click,
    ensures
        after_run(w, run.take(k)).state.last_click_time is Some,
        after_run(w, run.take(k)).state.last_click_time->0 >= run[i].at,
    decreases k,
{
    let upto = run.take(k);
    assert(upto.drop_last() =~= run.take(k - 1));
    assert(upto.last() == run[k - 1]);
    if i < k - 1 {
        lemma_last_click_is_recorded(w, run, i, k - 1);
        assert(run[i].at <= run[k - 1].at);
    }
}

/// In every run that keeps to the engine's answers, two repeat clicks are at
/// least the configured spacing apart.
pub proof fn clicks_are_spaced(w: Snapshot, run: Seq<Moment>, i: int, j: int)
    requires
        follows_protocol(w, run),
        0 <= i < j < run.len(),
        run[i].step is Click,
        run[j].step is Click,
    ensures
        run[j].at >= run[i].at + w.state.semiauto_timing,
{
    assert(moment_allowed(w, run, j));
    lemma_last_click_is_recorded(w, run, i, j);
    run_keeps_click_spacing(w, run.take(j));
    assert(run[i].at <= run[j].at);
}

/// In every run that keeps to the engine's answers, a repeat click goes out
/// only while the engine is firing: repeat clicks are switched on and the
/// button has been held for the threshold by the time the engine was asked.
pub proof fn clicks_need_a_long_hold(w: Snapshot, run: Seq<Moment>, j: int)
    requires
        follows_protocol(w, run),
        0 <= j < run.len(),
        run[j].step is Click,
    ensures
        ({
            let before = after_run(w, run.take(j));
            let polled_at: nat = run[j].step->polled_at;
            &&& phase_at(before.automation, before.state, polled_at) == Phase::HeldFiring
            &&& before.state.semiauto_enabled
            &&& before.automation.clicking_active
            &&& before.automation.last_real_click is Some
            &&& polled_at >= before.automation.last_real_click->0 + HOLD_THRESHOLD_MS
        }),
{
    assert(moment_allowed(w, run, j));
}

/// While the button is held with repeat clicks switched on, a click is due
/// at every time that lies at least the threshold after the press and at
/// least the spacing after the last click.
pub proof fn long_hold_makes_click_due(a: AutomationView, s: AppStateView, now: nat)
    requires
        a.wf(),
        a.clicking_active,
        s.semiauto_enabled,
        now >= a.last_real_click->0 + HOLD_THRESHOLD_MS,
        s.last_click_time is Some ==> now >= s.last_click_time->0 + s.semiauto_timing,
    ensures
        repeat_click_due(a, s, now),
{
}

/// An engine that is idle before moment `from` is still idle before moment
/// `to` when no press arrives in between.
proof fn lemma_stays_idle_without_press(w: Snapshot, run: Seq<Moment>, from: int, to: int)
    requires
        0 <= from <= to <= run.len(),
        !after_run(w, run.take(from)).automation.clicking_active,
        forall|k: int|
            from <= k < to ==> (#[trigger] run[k]).step != Step::Event(InputEvent::MouseButtonDown),
    ensures
        !after_run(w, run.take(to)).automation.clicking_active,
    decreases to - from,
{
    if from < to {
        lemma_stays_idle_without_press(w, run, from, to - 1);
        let upto = run.take(to);
        assert(upto.drop_last() =~= run.take(to - 1));
        assert(upto.last() == run[to - 1]);
    }
}

/// In every run that keeps to the engine's answers, no repeat click goes out
/// while the engine is idle: once the hold is over, there is no click until
/// the button is pressed again.
pub proof fn no_click_without_hold(w: Snapshot, run: Seq<Moment>, from: int, j: int)
    requires
        follows_protocol(w, run),
        0 <= from <= j < run.len(),
        !after_run(w, run.take(from)).automation.clicking_active,
        forall|k: int|
            from <= k < j ==> (#[trigger] run[k]).step != Step::Event(InputEvent::MouseButtonDown),
    ensures
        !(run[j].step is Click),
{
    lemma_stays_idle_without_press(w, run, from, j);
    assert(moment_allowed(w, run, j));
}

/// The phases follow the hold. A press that begins a hold puts the engine
/// into the pending phase, a release that ends it makes the engine idle, and
/// a held engine with repeat clicks switched on is firing exactly from the
/// threshold on.
pub proof fn phases_follow_the_hold(a: AutomationView, s: AppStateView, now: nat, later: nat)
    requires
        a.wf(),
    ensures
        begins_hold(a, now) ==> phase_at(after_button_down(a, now), s, now)
            == Phase::HeldPendingThreshold,
        ends_hold(a, now) ==> phase_at(after_button_up(a, now), s, later) == Phase::Idle,
        a.clicking_active && s.semiauto_enabled ==> (phase_at(a, s, later) == Phase::HeldFiring
            <==> later >= a.last_real_click->0 + HOLD_THRESHOLD_MS),
        a.clicking_active && !s.semiauto_enabled ==> phase_at(a, s, later)
            == Phase::HeldPendingThreshold,
        !a.clicking_active ==> phase_at(a, s, later) == Phase::Idle,
{
}

/// A duration perturbed by an offset of at most `range` either way is never
/// below the minimum delay. It stays within `range` of the base whenever the
/// base minus `range` is at least the minimum delay. Where that is less, the
/// result is floored: it is the minimum delay whenever base and offset add up
/// to no more, and never exceeds the larger of the minimum delay and the base
/// plus `range`.
pub proof fn jitter_stays_in_range(base: int, range: int, offset: int)
    requires
        0 <= base <= u64::MAX,
        -range <= offset <= range,
    ensures
        jittered(base, offset) >= MIN_DELAY_MS,
        jittered(base, offset) <= u64::MAX,
        base - range >= MIN_DELAY_MS ==> base - range <= jittered(base, offset) <= base + range,
        base - range < MIN_DELAY_MS ==> jittered(base, offset) <= base + range || jittered(
            base,
            offset,
        ) == MIN_DELAY_MS,
        base + offset <= MIN_DELAY_MS ==> jittered(base, offset) == MIN_DELAY_MS,
{
}

/// The reload cancel sequences for the two weapon slots are the same but for
/// the key of the last tap.
pub proof fn slot_changes_last_key_only(
    lead_delay: u64,
    item_hold: u64,
    switch_delay: u64,
    weapon_hold: u64,
)
    ensures
        ({
            let one = reload_cancel_steps(1, lead_delay, item_hold, switch_delay, weapon_hold);
            let two = reload_cancel_steps(2, lead_delay, item_hold, switch_delay, weapon_hold);
            &&& one.len() == two.len()
            &&& forall|i: int| 0 <= i < one.len() - 1 ==> one[i] == two[i]
            &&& one.last() == SequenceStep::KeyTap { key: SLOT_1_KEY, hold_ms: weapon_hold }
            &&& two.last() == SequenceStep::KeyTap { key: SLOT_2_KEY, hold_ms: weapon_hold }
        }),
{
}

/// The hotkey flips the reload cancel switch and touches nothing else, so two
/// strokes of it leave engine and configuration as they were.
pub proof fn double_toggle_restores(w: Snapshot, first: nat, second: nat)
    ensures
        ({
            let once = after_moment(
                w,
                Moment { at: first, step: Step::Event(InputEvent::ToggleReloadCancel) },
            );
            let twice = after_moment(
                once,
                Moment { at: second, step: Step::Event(InputEvent::ToggleReloadCancel) },
            );
            &&& once.state.reload_cancel_enabled == !w.state.reload_cancel_enabled
            &&& once.automation == w.automation
            &&& twice == w
        }),
{
}

} // verus!
