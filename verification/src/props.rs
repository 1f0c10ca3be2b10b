use vstd::prelude::*;

verus! {

use crate::config::COORD_LIMIT;
use crate::geometry::Point;
use crate::geometry::hit;
use crate::machine::Phase;
use crate::machine::TrialState;
use crate::machine::click_spec;
use crate::machine::move_spec;
use crate::machine::tick_spec;

/// One frame-loop input: either a time delta or a cursor-position
/// sample.  Clicks are deliberately absent: these sequences describe
/// what happens to a trial between clicks.
pub enum InputEvent {
    TimePassed(u64),
    CursorMoved(Point),
}

pub open spec fn step_spec(s: TrialState, e: InputEvent) -> TrialState {
    match e {
        InputEvent::TimePassed(dt) => tick_spec(s, dt),
        InputEvent::CursorMoved(p) => move_spec(s, p),
    }
}

pub open spec fn run_events(s: TrialState, es: Seq<InputEvent>) -> TrialState
    decreases es.len(),
{
    if es.len() == 0 {
        s
    } else {
        run_events(step_spec(s, es[0]), es.drop_first())
    }
}

/// A run of ticks with the cursor at rest throughout.
pub open spec fn run_quiet_ticks(s: TrialState, dts: Seq<u64>) -> TrialState
    decreases dts.len(),
{
    if dts.len() == 0 {
        s
    } else {
        run_quiet_ticks(tick_spec(s, dts[0]), dts.drop_first())
    }
}

/// Sum of a sequence of time deltas.
pub open spec fn total_time(dts: Seq<u64>) -> int
    decreases dts.len(),
{
    if dts.len() == 0 {
        0
    } else {
        dts[0] + total_time(dts.drop_first())
    }
}

proof fn lemma_total_time_nonneg(dts: Seq<u64>)
    ensures
        total_time(dts) >= 0,
    decreases dts.len(),
{
    if dts.len() > 0 {
        lemma_total_time_nonneg(dts.drop_first());
    }
}

/// An armed target stays armed through any quiet ticks.
proof fn lemma_armed_stays_quiet(s: TrialState, dts: Seq<u64>)
    requires
        s.phase is ArmedWaitingForMove,
        !s.moved_this_frame,
    ensures
        run_quiet_ticks(s, dts).phase is ArmedWaitingForMove,
    decreases dts.len(),
{
    if dts.len() > 0 {
        lemma_armed_stays_quiet(tick_spec(s, dts[0]), dts.drop_first());
    }
}

/// Through quiet ticks, a delay that started at `t` either accumulates
/// to exactly `t` plus the elapsed time, or arms the target the moment
/// the threshold is reached.
proof fn lemma_delay_run(s: TrialState, t: u64, dts: Seq<u64>)
    requires
        s.phase == Phase::PreTargetDelay(t),
        !s.moved_this_frame,
        dts.len() >= 1,
    ensures
        t + total_time(dts) >= s.config.delay_threshold ==> run_quiet_ticks(
            s,
            dts,
        ).phase is ArmedWaitingForMove,
        t + total_time(dts) < s.config.delay_threshold ==> run_quiet_ticks(s, dts).phase
            == Phase::PreTargetDelay((t + total_time(dts)) as u64),
    decreases dts.len(),
{
    let s1 = tick_spec(s, dts[0]);
    let rest = dts.drop_first();
    lemma_total_time_nonneg(rest);
    if t + dts[0] >= s.config.delay_threshold {
        lemma_armed_stays_quiet(s1, rest);
    } else {
        if rest.len() == 0 {
        } else {
            lemma_delay_run(s1, (t + dts[0]) as u64, rest);
        }
    }
}

/// Law: starting settled, with the cursor at rest and no clicks, the
/// target becomes armed exactly when the time accumulated after the
/// settling tick reaches the configured delay, and not a tick before;
/// until then the machine sits in `PreTargetDelay` holding exactly the
/// accumulated time.
pub proof fn lemma_settling_arms_exactly_at_threshold(s: TrialState, dts: Seq<u64>)
    requires
        s.phase is SettlingAfterClick,
        !s.moved_this_frame,
        dts.len() >= 2,
    ensures
        run_quiet_ticks(s, dts).phase is ArmedWaitingForMove <==> total_time(dts.drop_first())
            >= s.config.delay_threshold,
        total_time(dts.drop_first()) < s.config.delay_threshold ==> run_quiet_ticks(s, dts).phase
            == Phase::PreTargetDelay(total_time(dts.drop_first()) as u64),
{
    let s1 = tick_spec(s, dts[0]);
    lemma_delay_run(s1, 0, dts.drop_first());
}

/// Law: movement reported during the pre-target delay abandons the
/// accumulated wait, whatever it was: the machine settles again, and
/// the next quiet tick restarts the delay from zero.
pub proof fn lemma_movement_resets_delay(s: TrialState, t: u64, dt1: u64, dt2: u64)
    requires
        s.phase == Phase::PreTargetDelay(t),
        s.moved_this_frame,
    ensures
        tick_spec(s, dt1).phase is SettlingAfterClick,
        tick_spec(tick_spec(s, dt1), dt2).phase == Phase::PreTargetDelay(0u64),
{
}

/// Law: a click in any phase other than `Timing` changes nothing and
/// emits nothing, whatever position the next target would have taken.
pub proof fn lemma_click_ignored_outside_timing(s: TrialState, next_target: Point)
    requires
        !(s.phase is Timing),
    ensures
        click_spec(s, next_target).0 == s,
        click_spec(s, next_target).1 is None,
{
}

/// Law: a click while timing with the cursor outside the target square
/// changes nothing and emits nothing; in particular the phase stays
/// `Timing` with its elapsed value intact, so the clock keeps running.
pub proof fn lemma_click_outside_target_ignored(s: TrialState, next_target: Point)
    requires
        s.phase is Timing,
        !hit(s.cursor, s.target, s.config.target_size),
    ensures
        click_spec(s, next_target).0 == s,
        click_spec(s, next_target).1 is None,
{
}

/// Law: the hit test is closed on both x edges and on the lower y
/// edge, and open on the upper y edge: the corner `(x, y)` and the
/// corner `(x + size, y)` count as hits, the corner `(x, y + size)`
/// does not.
pub proof fn lemma_hit_edges(target: Point, size: i64)
    requires
        target.wf(),
        0 < size <= COORD_LIMIT,
    ensures
        hit(target, target, size),
        hit((Point { x: (target.x + size) as i64, y: target.y }), target, size),
        !hit((Point { x: target.x, y: (target.y + size) as i64 }), target, size),
{
}

/// Law: once the warm-up is over it never comes back: no tick, cursor
/// sample or click turns `warmup_active` on again.
pub proof fn lemma_warmup_never_returns(s: TrialState, dt: u64, p: Point, next_target: Point)
    requires
        !s.warmup_active,
    ensures
        !tick_spec(s, dt).warmup_active,
        !move_spec(s, p).warmup_active,
        !click_spec(s, next_target).0.warmup_active,
{
}

/// Law: after the session has completed, every further click is
/// discarded and leaves the state as it is.
pub proof fn lemma_session_done_freezes_clicks(s: TrialState, next_target: Point)
    requires
        s.session_done,
    ensures
        click_spec(s, next_target).0 == s,
        click_spec(s, next_target).1 is None,
{
}

/// Law: between clicks, no amount of cursor movement or passing time
/// touches the stored target or its generation-time distance.
pub proof fn lemma_target_fixed_between_clicks(s: TrialState, es: Seq<InputEvent>)
    ensures
        run_events(s, es).target == s.target,
        run_events(s, es).target_dist_sq == s.target_dist_sq,
    decreases es.len(),
{
    if es.len() > 0 {
        lemma_target_fixed_between_clicks(step_spec(s, es[0]), es.drop_first());
    }
}

} // verus!
