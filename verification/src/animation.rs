//! Sprite animation: a repeating cycle timer that advances the displayed
//! frame index within a frame range, and the selector that maps an action
//! state to the cycle it should show.

use vstd::prelude::*;

use crate::config::MAX_TICK_MS;
use crate::state::ActionState;

verus! {

/// Largest frame index a cycle may use; keeps index arithmetic inside a
/// `usize` on every platform.
pub const MAX_FRAME_INDEX: usize = 1_000_000;

/// Largest cycle period, in milliseconds, a cycle may use; keeps elapsed-time
/// arithmetic inside a `u64`.
pub const MAX_CYCLE_PERIOD_MS: u64 = 86_400_000;

/// Out of 100 uniform draws, on how many the idle animation blinks: fewer
/// than a tenth of draws blink, the rest show the plain idle cycle.
pub const BLINK_DRAWS_PER_HUNDRED: u8 = 9;

/// An inclusive frame-index range within the sprite sheet.
#[derive(Clone, Copy, Debug, PartialEq, Eq, Structural)]
pub struct AnimationIndices {
    /// First frame of the range.
    pub first: usize,
    /// Last frame of the range, inclusive.
    pub last: usize,
}

impl AnimationIndices {
    /// A range is valid when it is non-empty and within the frame bound.
    pub open spec fn wf(self) -> bool {
        self.first <= self.last <= MAX_FRAME_INDEX
    }
}

/// What the animation selector picks: a frame range and the period after
/// which the displayed frame advances.
#[derive(Clone, Copy, Debug, PartialEq, Eq, Structural)]
pub struct CycleSettings {
    /// The frame-index range the cycle loops over.
    pub indices: AnimationIndices,
    /// The repeat period of the cycle, in milliseconds.
    pub period_ms: u64,
}

impl CycleSettings {
    /// Valid settings have a valid range and a positive, bounded period; a
    /// zero period is a programmer contract violation, rejected up front.
    pub open spec fn wf(self) -> bool {
        &&& self.indices.wf()
        &&& 0 < self.period_ms <= MAX_CYCLE_PERIOD_MS
    }

    /// Build cycle settings, validating them eagerly: `None` exactly when
    /// the range is empty or out of bounds, or the period is zero or over
    /// its bound — failing fast at setup rather than at the first tick.
    pub fn new(first: usize, last: usize, period_ms: u64) -> (r: Option<CycleSettings>)
        ensures
            ({
                let s = CycleSettings { indices: AnimationIndices { first, last }, period_ms };
                if s.wf() {
                    r == Some(s)
                } else {
                    r is None
                }
            }),
            (r matches Some(s) ==> s.wf()),
    {
        if first <= last && last <= MAX_FRAME_INDEX && 0 < period_ms
            && period_ms <= MAX_CYCLE_PERIOD_MS {
            Some(CycleSettings { indices: AnimationIndices { first, last }, period_ms })
        } else {
            None
        }
    }
}

/// How many frames a range holds.
pub open spec fn frame_count(ind: AnimationIndices) -> int {
    ind.last - ind.first + 1
}

/// The frame displayed after advancing `steps` single-frame steps from
/// `index`, wrapping from `last` back to `first`.
pub open spec fn advanced_frame(ind: AnimationIndices, index: int, steps: int) -> int {
    ind.first + ((index - ind.first + steps) % frame_count(ind))
}

/// A live, looping sprite animation: the selected settings plus the running
/// elapsed time and the currently displayed frame index.
#[derive(Clone, Copy, Debug, PartialEq, Eq, Structural)]
pub struct AnimationCycle {
    /// The frame-index range the cycle loops over.
    pub indices: AnimationIndices,
    /// The repeat period of the cycle, in milliseconds.
    pub period_ms: u64,
    /// Time accumulated since the displayed frame last advanced.
    pub elapsed_ms: u64,
    /// The frame index currently displayed.
    pub index: usize,
}

/// The settings a live cycle was built from.
pub open spec fn settings_of(c: AnimationCycle) -> CycleSettings {
    CycleSettings { indices: c.indices, period_ms: c.period_ms }
}

/// A fresh cycle built from settings: nothing elapsed, displaying the first
/// frame of the range.
pub open spec fn fresh_cycle(s: CycleSettings) -> AnimationCycle {
    AnimationCycle {
        indices: s.indices,
        period_ms: s.period_ms,
        elapsed_ms: 0,
        index: s.indices.first,
    }
}

/// A cycle after accumulating `dt` milliseconds: the elapsed time wraps
/// modulo the period, and the displayed frame advances by one step per whole
/// period boundary crossed — several in one tick if the tick was unusually
/// long.
pub open spec fn cycle_after_advance(c: AnimationCycle, dt: int) -> AnimationCycle {
    AnimationCycle {
        indices: c.indices,
        period_ms: c.period_ms,
        elapsed_ms: (((c.elapsed_ms + dt) % (c.period_ms as int)) as u64),
        index: (advanced_frame(
            c.indices,
            c.index as int,
            (c.elapsed_ms + dt) / (c.period_ms as int),
        ) as usize),
    }
}

impl AnimationCycle {
    /// A live cycle is valid when its settings are, the displayed frame lies
    /// within the range, and the accumulated time has not yet reached the
    /// period (reaching it advances the frame and wraps).
    pub open spec fn wf(self) -> bool {
        &&& settings_of(self).wf()
        &&& self.indices.first <= self.index <= self.indices.last
        &&& self.elapsed_ms < self.period_ms
    }

    /// Start a cycle from the given settings, displaying the first frame.
    pub fn new(settings: CycleSettings) -> (c: AnimationCycle)
        requires
            settings.wf(),
        ensures
            c == fresh_cycle(settings),
            c.wf(),
    {
        AnimationCycle {
            indices: settings.indices,
            period_ms: settings.period_ms,
            elapsed_ms: 0,
            index: settings.indices.first,
        }
    }

    /// Accumulate `dt_ms` of real time: each whole period boundary crossed
    /// advances the displayed frame by one step, wrapping from `last` back
    /// to `first`, and the remainder stays on the clock.
    pub fn advance(&mut self, dt_ms: u64)
        requires
            old(self).wf(),
            dt_ms <= MAX_TICK_MS,
        ensures
            *final(self) == cycle_after_advance(*old(self), dt_ms as int),
            final(self).wf(),
    {
        let total = self.elapsed_ms + dt_ms;
        let steps = total / self.period_ms;
        self.elapsed_ms = total % self.period_ms;
        let len = (self.indices.last - self.indices.first) as u64 + 1;
        let offset = ((self.index - self.indices.first) as u64 + steps) % len;
        self.index = self.indices.first + (offset as usize);
    }

    /// Point the cycle at freshly selected settings: when they differ from
    /// what the cycle already shows, the cycle is replaced wholesale — the
    /// elapsed time resets to zero and the displayed frame to the range's
    /// first — and when they are the settings already showing, nothing
    /// changes.
    pub fn apply_settings(&mut self, settings: CycleSettings)
        requires
            old(self).wf(),
            settings.wf(),
        ensures
            *final(self) == (if settings_of(*old(self)) == settings {
                *old(self)
            } else {
                fresh_cycle(settings)
            }),
            final(self).wf(),
    {
        if !(self.indices == settings.indices && self.period_ms == settings.period_ms) {
            *self = AnimationCycle {
                indices: settings.indices,
                period_ms: settings.period_ms,
                elapsed_ms: 0,
                index: settings.indices.first,
            };
        }
    }
}

/// The cycle settings for an action state, given this tick's uniform random
/// draw `blink_roll` in 0..100 for the idle blink variant. Only the Setup
/// state, before the first tick has run, selects nothing.
pub open spec fn select_cycle_spec(state: ActionState, blink_roll: u8) -> Option<CycleSettings> {
    match state {
        ActionState::Setup => None,
        ActionState::Idle => Some(
            if blink_roll < BLINK_DRAWS_PER_HUNDRED {
                CycleSettings {
                    indices: AnimationIndices { first: 8, last: 9 },
                    period_ms: 350,
                }
            } else {
                CycleSettings {
                    indices: AnimationIndices { first: 0, last: 1 },
                    period_ms: 350,
                }
            },
        ),
        ActionState::Walk => Some(
            CycleSettings { indices: AnimationIndices { first: 16, last: 19 }, period_ms: 50 },
        ),
        ActionState::Run => Some(
            CycleSettings { indices: AnimationIndices { first: 24, last: 31 }, period_ms: 500 },
        ),
        ActionState::Jump => Some(
            CycleSettings { indices: AnimationIndices { first: 41, last: 43 }, period_ms: 250 },
        ),
        ActionState::Fall => Some(
            CycleSettings { indices: AnimationIndices { first: 43, last: 47 }, period_ms: 250 },
        ),
    }
}

/// Map an action state (plus this tick's uniform random draw in 0..100, used
/// only for the idle blink variant) to the cycle settings it should show.
/// Selection is mutually exclusive: exactly the active state's row fires,
/// and nothing blends.
pub fn select_cycle(state: ActionState, blink_roll: u8) -> (r: Option<CycleSettings>)
    requires
        blink_roll < 100,
    ensures
        r == select_cycle_spec(state, blink_roll),
        (r matches Some(s) ==> s.wf()),
{
    match state {
        ActionState::Setup => None,
        ActionState::Idle => Some(
            if blink_roll < BLINK_DRAWS_PER_HUNDRED {
                CycleSettings {
                    indices: AnimationIndices { first: 8, last: 9 },
                    period_ms: 350,
                }
            } else {
                CycleSettings {
                    indices: AnimationIndices { first: 0, last: 1 },
                    period_ms: 350,
                }
            },
        ),
        ActionState::Walk => Some(
            CycleSettings { indices: AnimationIndices { first: 16, last: 19 }, period_ms: 50 },
        ),
        ActionState::Run => Some(
            CycleSettings { indices: AnimationIndices { first: 24, last: 31 }, period_ms: 500 },
        ),
        ActionState::Jump => Some(
            CycleSettings { indices: AnimationIndices { first: 41, last: 43 }, period_ms: 250 },
        ),
        ActionState::Fall => Some(
            CycleSettings { indices: AnimationIndices { first: 43, last: 47 }, period_ms: 250 },
        ),
    }
}

/// One presentation tick: select the cycle for the committed action state,
/// replace the live cycle if the selection differs from what it already
/// shows (resetting clock and frame), and then advance the clock by this
/// tick's duration. In the Setup state no selection fires and only the clock
/// advances.
pub fn presentation_step(
    cycle: &mut AnimationCycle,
    state: ActionState,
    blink_roll: u8,
    dt_ms: u64,
)
    requires
        old(cycle).wf(),
        blink_roll < 100,
        dt_ms <= MAX_TICK_MS,
    ensures
        ({
            let base = match select_cycle_spec(state, blink_roll) {
                None => *old(cycle),
                Some(s) => if settings_of(*old(cycle)) == s {
                    *old(cycle)
                } else {
                    fresh_cycle(s)
                },
            };
            *final(cycle) == cycle_after_advance(base, dt_ms as int)
        }),
        final(cycle).wf(),
{
    match select_cycle(state, blink_roll) {
        None => {},
        Some(s) => cycle.apply_settings(s),
    }
    cycle.advance(dt_ms);
}

/// The selector needs no fresh draw outside the Idle state: for every other
/// state the draw plays no part, so selecting twice for the same state
/// yields the same settings whatever was drawn. (For Idle, the same draw
/// yields the same settings, the selector being a function of state and
/// draw alone.)
pub proof fn lemma_selector_needs_no_fresh_draw(state: ActionState, roll1: u8, roll2: u8)
    requires
        !(state is Idle),
    ensures
        select_cycle_spec(state, roll1) == select_cycle_spec(state, roll2),
{
}

/// Advancing one single-frame step walks the range in order and wraps: from
/// any frame but the last it moves to the next index, and from the last
/// frame it returns to the first.
pub proof fn lemma_frame_step(ind: AnimationIndices, index: int)
    requires
        ind.wf(),
        ind.first <= index <= ind.last,
    ensures
        advanced_frame(ind, index, 1) == (if index == ind.last {
            ind.first as int
        } else {
            index + 1
        }),
{
    let len = frame_count(ind);
    let a = index - ind.first + 1;
    if index == ind.last {
        assert(a % len == 0) by (nonlinear_arith)
            requires
                a == len,
                len > 0,
        ;
    } else {
        assert(a % len == a) by (nonlinear_arith)
            requires
                0 <= a < len,
        ;
    }
}

/// A tick of exactly one period crosses exactly one period boundary: the
/// displayed frame advances by one single-frame step and the remainder on
/// the clock is unchanged.
pub proof fn lemma_full_period_steps_once(c: AnimationCycle)
    requires
        c.wf(),
    ensures
        cycle_after_advance(c, c.period_ms as int).elapsed_ms == c.elapsed_ms,
        cycle_after_advance(c, c.period_ms as int).index as int == advanced_frame(
            c.indices,
            c.index as int,
            1,
        ),
{
    let p = c.period_ms as int;
    let e = c.elapsed_ms as int;
    assert((e + p) / p == 1 && (e + p) % p == e) by (nonlinear_arith)
        requires
            0 <= e < p,
    ;
    let len = frame_count(c.indices);
    let a = c.index - c.indices.first + 1;
    assert(0 <= a % len < len) by (nonlinear_arith)
        requires
            0 <= a,
            0 < len,
    ;
}

/// The displayed frame wraps after exactly `last - first + 1` single-frame
/// steps: advancing by one whole frame count returns to the frame already
/// displayed.
pub proof fn lemma_frame_wrap(ind: AnimationIndices, index: int)
    requires
        ind.wf(),
        ind.first <= index <= ind.last,
    ensures
        advanced_frame(ind, index, frame_count(ind)) == index,
{
    let len = frame_count(ind);
    let a = index - ind.first;
    assert((a + len) % len == a) by (nonlinear_arith)
        requires
            0 <= a < len,
    ;
}

} // verus!
