use vstd::prelude::*;

verus! {

use crate::config::Config;
use crate::geometry::Point;
use crate::geometry::dist_sq;
use crate::geometry::hit;
use crate::geometry::hit_test;
use crate::geometry::target_in_bounds;
use crate::target::generate;
use crate::target::place_target;

/// The phase a trial is in at any instant.
#[derive(Clone, Copy, PartialEq, Eq, Structural, Debug)]
pub enum Phase {
    /// The cursor is still moving after the last click; nothing happens
    /// until it comes to rest.
    SettlingAfterClick,
    /// The cursor has stopped; a fixed grace period runs down before
    /// the next target appears.  The payload is the time waited so far.
    PreTargetDelay(u64),
    /// The target is visible but the cursor has not started moving, so
    /// the clock has not started: pointing time is measured, not
    /// reaction time.
    ArmedWaitingForMove,
    /// The cursor is moving toward the visible target; the payload
    /// accumulates the elapsed time.
    Timing(u64),
}

/// One emitted measurement: the trial number, the squared straight-line
/// distance from where the cursor rested to the target at the moment
/// the target was generated, the time the pointing took, and whether
/// this measurement completes the session.
#[derive(Clone, Copy, PartialEq, Eq, Structural, Debug)]
pub struct Measurement {
    pub trial_index: u32,
    pub distance_squared: u64,
    pub elapsed: u64,
    pub session_complete: bool,
}

/// The whole state of the experiment, advanced in place by `tick`,
/// `on_mouse_move` and `on_click`.
#[derive(Clone, Copy, PartialEq, Eq, Structural, Debug)]
pub struct TrialState {
    pub config: Config,
    pub phase: Phase,
    pub target: Point,
    pub target_dist_sq: u64,
    pub cursor: Point,
    pub moved_this_frame: bool,
    pub trial_index: u32,
    pub warmup_active: bool,
    pub session_done: bool,
}

/// `u64` addition that stops at the numeric ceiling instead of wrapping.
pub open spec fn sat_add(a: u64, b: u64) -> u64 {
    if a + b <= u64::MAX {
        (a + b) as u64
    } else {
        u64::MAX
    }
}

/// The phase transition a time tick makes, as a function of the current
/// phase, whether any cursor movement was seen since the last tick, the
/// time delta, and the configured grace delay.
pub open spec fn phase_after_tick(phase: Phase, moved: bool, dt: u64, threshold: u64) -> Phase {
    match phase {
        Phase::SettlingAfterClick => if moved {
            Phase::SettlingAfterClick
        } else {
            Phase::PreTargetDelay(0)
        },
        Phase::PreTargetDelay(t) => if moved {
            Phase::SettlingAfterClick
        } else if t + dt >= threshold {
            Phase::ArmedWaitingForMove
        } else {
            Phase::PreTargetDelay((t + dt) as u64)
        },
        Phase::ArmedWaitingForMove => if moved {
            Phase::Timing(0)
        } else {
            Phase::ArmedWaitingForMove
        },
        Phase::Timing(t) => Phase::Timing(sat_add(t, dt)),
    }
}

/// The whole effect of a tick: the phase advances and the per-frame
/// movement latch is cleared; nothing else changes.
pub open spec fn tick_spec(s: TrialState, dt: u64) -> TrialState {
    TrialState {
        phase: phase_after_tick(s.phase, s.moved_this_frame, dt, s.config.delay_threshold),
        moved_this_frame: false,
        ..s
    }
}

/// The whole effect of a cursor-position sample: the position is
/// recorded and the per-frame movement latch is set; nothing else
/// changes.
pub open spec fn move_spec(s: TrialState, position: Point) -> TrialState {
    TrialState { cursor: position, moved_this_frame: true, ..s }
}

/// A click counts only while timing, only with the cursor over the
/// target, and only while the session is still running.
pub open spec fn qualifying_click(s: TrialState) -> bool {
    &&& s.phase is Timing
    &&& hit(s.cursor, s.target, s.config.target_size)
    &&& !s.session_done
}

/// The whole effect of a click, given the position the next target
/// would be placed at: the new state and the measurement emitted, if
/// any.  A non-qualifying click changes nothing.  A qualifying click
/// always returns the machine to `SettlingAfterClick` and stores the
/// next target with its generation-time distance; warm-up clicks are
/// discarded, and the click that ends the warm-up is itself discarded
/// and resets the trial count to zero.
pub open spec fn click_spec(s: TrialState, new_target: Point) -> (TrialState, Option<Measurement>) {
    if !qualifying_click(s) {
        (s, None)
    } else {
        let t = match s.phase {
            Phase::Timing(t) => t,
            _ => 0,
        };
        let retargeted = TrialState {
            phase: Phase::SettlingAfterClick,
            target: new_target,
            target_dist_sq: dist_sq(s.cursor, new_target) as u64,
            ..s
        };
        if s.warmup_active {
            if s.trial_index >= s.config.ignore_first {
                (TrialState { warmup_active: false, trial_index: 0, ..retargeted }, None)
            } else {
                (TrialState { trial_index: (s.trial_index + 1) as u32, ..retargeted }, None)
            }
        } else {
            let complete = s.trial_index >= s.config.trial_count - 1;
            (
                TrialState {
                    trial_index: (s.trial_index + 1) as u32,
                    session_done: complete,
                    ..retargeted
                },
                Some(
                    Measurement {
                        trial_index: s.trial_index,
                        distance_squared: s.target_dist_sq,
                        elapsed: t,
                        session_complete: complete,
                    },
                ),
            )
        }
    }
}

/// What a click guarantees when the next target position is left to the
/// random source: the state steps exactly as `click_spec` says for the
/// target that was in fact placed, and that target lies within bounds.
pub open spec fn click_transition(pre: TrialState, post: TrialState, m: Option<
    Measurement,
>) -> bool {
    if qualifying_click(pre) {
        &&& target_in_bounds(post.target, pre.config)
        &&& post == click_spec(pre, post.target).0
        &&& m == click_spec(pre, post.target).1
    } else {
        &&& post == pre
        &&& m is None
    }
}

/// The state a fresh session starts in: settling, warm-up pending iff
/// any warm-up clicks are configured, and a first target already
/// generated with its distance from the starting cursor position.
pub open spec fn initial_state(config: Config, start_cursor: Point, target: Point) -> TrialState {
    TrialState {
        config,
        phase: Phase::SettlingAfterClick,
        target,
        target_dist_sq: dist_sq(start_cursor, target) as u64,
        cursor: start_cursor,
        moved_this_frame: false,
        trial_index: 0,
        warmup_active: config.ignore_first > 0,
        session_done: false,
    }
}

impl TrialState {
    /// Internal consistency: valid configuration, admissible cursor,
    /// target within bounds, and a trial count that cannot overflow.
    pub open spec fn wf(self) -> bool {
        &&& self.config.wf()
        &&& self.cursor.wf()
        &&& target_in_bounds(self.target, self.config)
        &&& self.warmup_active ==> self.trial_index <= self.config.ignore_first
        &&& (!self.warmup_active && !self.session_done) ==> self.trial_index
            < self.config.trial_count
    }

    /// Starts a session with the first target at the given coordinates.
    pub fn new_with_target(config: Config, start_cursor: Point, rx: i64, ry: i64) -> (s: TrialState)
        requires
            config.wf(),
            start_cursor.wf(),
            0 <= rx < config.x_range(),
            0 <= ry < config.y_range(),
        ensures
            s == initial_state(config, start_cursor, (Point { x: rx, y: ry })),
            s.wf(),
    {
        let (target, d) = place_target(&config, start_cursor, rx, ry);
        TrialState {
            config,
            phase: Phase::SettlingAfterClick,
            target,
            target_dist_sq: d,
            cursor: start_cursor,
            moved_this_frame: false,
            trial_index: 0,
            warmup_active: config.ignore_first > 0,
            session_done: false,
        }
    }

    /// Starts a session with a randomly placed first target.
    pub fn new(config: Config, start_cursor: Point) -> (s: TrialState)
        requires
            config.wf(),
            start_cursor.wf(),
        ensures
            target_in_bounds(s.target, config),
            s == initial_state(config, start_cursor, s.target),
            s.wf(),
    {
        let (target, d) = generate(&config, start_cursor);
        TrialState {
            config,
            phase: Phase::SettlingAfterClick,
            target,
            target_dist_sq: d,
            cursor: start_cursor,
            moved_this_frame: false,
            trial_index: 0,
            warmup_active: config.ignore_first > 0,
            session_done: false,
        }
    }

    /// Advances the time-dependent phases by one frame of `dt` time
    /// units and clears the per-frame movement latch.
    pub fn tick(&mut self, dt: u64)
        ensures
            *final (self) == tick_spec(*old(self), dt),
            old(self).wf() ==> final (self).wf(),
    {
        match self.phase {
            Phase::SettlingAfterClick => {
                if !self.moved_this_frame {
                    self.phase = Phase::PreTargetDelay(0);
                }
            },
            Phase::PreTargetDelay(t) => {
                if self.moved_this_frame {
                    self.phase = Phase::SettlingAfterClick;
                } else if dt >= self.config.delay_threshold || t >= self.config.delay_threshold
                    - dt {
                    self.phase = Phase::ArmedWaitingForMove;
                } else {
                    self.phase = Phase::PreTargetDelay(t + dt);
                }
            },
            Phase::ArmedWaitingForMove => {
                if self.moved_this_frame {
                    self.phase = Phase::Timing(0);
                }
            },
            Phase::Timing(t) => {
                if t <= u64::MAX - dt {
                    self.phase = Phase::Timing(t + dt);
                } else {
                    self.phase = Phase::Timing(u64::MAX);
                }
            },
        }
        self.moved_this_frame = false;
    }

    /// Records a cursor-position sample and latches that movement
    /// happened this frame.  The stored target and its generation-time
    /// distance are untouched, however often the cursor moves.
    pub fn on_mouse_move(&mut self, position: Point)
        requires
            position.wf(),
        ensures
            *final (self) == move_spec(*old(self), position),
            old(self).wf() ==> final (self).wf(),
    {
        self.cursor = position;
        self.moved_this_frame = true;
    }

    /// True iff a target should currently be drawn.
    pub fn is_target_visible(&self) -> (r: bool)
        ensures
            r == (self.phase is ArmedWaitingForMove || self.phase is Timing),
    {
        match self.phase {
            Phase::ArmedWaitingForMove => true,
            Phase::Timing(_) => true,
            _ => false,
        }
    }

    /// Handles a left-button press, placing the next target at the
    /// given coordinates if the click qualifies.  Returns the emitted
    /// measurement, if any.
    pub fn on_click_with_target(&mut self, rx: i64, ry: i64) -> (m: Option<Measurement>)
        requires
            old(self).wf(),
            0 <= rx < old(self).config.x_range(),
            0 <= ry < old(self).config.y_range(),
        ensures
            *final (self) == click_spec(*old(self), (Point { x: rx, y: ry })).0,
            m == click_spec(*old(self), (Point { x: rx, y: ry })).1,
            final (self).wf(),
    {
        let timing_elapsed: u64;
        match self.phase {
            Phase::Timing(t) => {
                timing_elapsed = t;
            },
            _ => {
                return None;
            },
        }
        if self.session_done {
            return None;
        }
        if !hit_test(self.cursor, self.target, self.config.target_size) {
            return None;
        }
        let result: Option<Measurement>;
        if self.warmup_active {
            if self.trial_index >= self.config.ignore_first {
                self.warmup_active = false;
                self.trial_index = 0;
            } else {
                self.trial_index = self.trial_index + 1;
            }
            result = None;
        } else {
            let complete = self.trial_index >= self.config.trial_count - 1;
            result = Some(
                Measurement {
                    trial_index: self.trial_index,
                    distance_squared: self.target_dist_sq,
                    elapsed: timing_elapsed,
                    session_complete: complete,
                },
            );
            self.session_done = complete;
            self.trial_index = self.trial_index + 1;
        }
        self.phase = Phase::SettlingAfterClick;
        let (target, d) = place_target(&self.config, self.cursor, rx, ry);
        self.target = target;
        self.target_dist_sq = d;
        result
    }

    /// Handles a left-button press, drawing the next target position
    /// from the random source if the click qualifies.
    pub fn on_click(&mut self) -> (m: Option<Measurement>)
        requires
            old(self).wf(),
        ensures
            click_transition(*old(self), *final (self), m),
            final (self).wf(),
    {
        let rx = crate::rng::random_below(self.config.x_range_len());
        let ry = crate::rng::random_below(self.config.y_range_len());
        self.on_click_with_target(rx, ry)
    }
}

} // verus!
