//! The jump arc tracker: a transient per-jump accumulator of vertical
//! displacement, capped at the configured maximum jump height.

use vstd::prelude::*;

use crate::config::Config;
use crate::config::MAX_SPEED;
use crate::config::MAX_TICK_MS;

verus! {

/// Per-jump record of how much of the jump budget has been spent. It exists
/// only while the character is ascending: it is created when a jump is
/// initiated and destroyed when the budget is spent or the character is
/// grounded again.
#[derive(Clone, Copy, Debug, PartialEq, Eq, Structural)]
pub struct JumpState {
    /// Vertical displacement accumulated by this jump so far, in thousandths
    /// of a pixel.
    pub accumulated_height: u64,
}

impl JumpState {
    /// A live jump has spent strictly less than the budget: the tick that
    /// reaches the budget destroys the record.
    pub open spec fn wf(self, cfg: Config) -> bool {
        self.accumulated_height < cfg.max_jump_height
    }

    /// Start a fresh jump with nothing of the budget spent yet. Permitted
    /// only when the character is grounded with jump input held; the caller
    /// enforces that, and re-triggering is excluded while a jump is live
    /// because the record itself already exists.
    pub fn begin() -> (j: JumpState)
        ensures
            j.accumulated_height == 0,
    {
        JumpState { accumulated_height: 0 }
    }
}

/// Whether an ascent tick from accumulated height `acc` with raw displacement
/// `raw` reaches the jump budget `max`.
pub open spec fn ascent_caps(acc: int, max: int, raw: int) -> bool {
    acc + raw >= max
}

/// The vertical displacement emitted by an ascent tick: the raw displacement
/// `raw`, clamped so that the accumulated height never exceeds the budget
/// `max`. This is a per-tick displacement request, never the accumulated
/// total.
pub open spec fn ascent_delta(acc: int, max: int, raw: int) -> int {
    if ascent_caps(acc, max, raw) {
        max - acc
    } else {
        raw
    }
}

/// One tick of ascent while a jump is in progress. Returns the emitted
/// vertical displacement (thousandths of a pixel) and the surviving jump
/// record: `None` exactly when this tick's ascent reached the budget, in
/// which case the displacement is clamped to the budget's remainder.
pub fn rise_step(j: JumpState, cfg: &Config, dt_ms: u64) -> (r: (u64, Option<JumpState>))
    requires
        cfg.wf(),
        j.wf(*cfg),
        dt_ms <= MAX_TICK_MS,
    ensures
        ({
            let raw = cfg.rise_speed * dt_ms;
            let acc = j.accumulated_height as int;
            let max = cfg.max_jump_height as int;
            &&& r.0 == ascent_delta(acc, max, raw)
            &&& if ascent_caps(acc, max, raw) {
                r.1 is None
            } else {
                r.1 == Some(JumpState { accumulated_height: (acc + raw) as u64 })
            }
            &&& (r.1 matches Some(j2) ==> j2.wf(*cfg))
        }),
{
    proof {
        assert(cfg.rise_speed * dt_ms <= MAX_SPEED * MAX_TICK_MS) by (nonlinear_arith)
            requires
                cfg.rise_speed <= MAX_SPEED,
                dt_ms <= MAX_TICK_MS,
        ;
    }
    let raw = cfg.rise_speed * dt_ms;
    if j.accumulated_height + raw >= cfg.max_jump_height {
        (cfg.max_jump_height - j.accumulated_height, None)
    } else {
        (raw, Some(JumpState { accumulated_height: j.accumulated_height + raw }))
    }
}

/// The total vertical displacement an ascent emits over consecutive ticks
/// with raw displacements `raws`, starting from accumulated height `acc`
/// under budget `max`, stopping at the tick whose clamp spends the budget.
pub open spec fn total_ascent(acc: int, max: int, raws: Seq<int>) -> int
    decreases raws.len(),
{
    if raws.len() == 0 {
        0
    } else if ascent_caps(acc, max, raws[0]) {
        ascent_delta(acc, max, raws[0])
    } else {
        ascent_delta(acc, max, raws[0]) + total_ascent(acc + raws[0], max, raws.drop_first())
    }
}

/// Whether an ascent starting from accumulated height `acc` spends the whole
/// budget `max` within the ticks whose raw displacements are `raws`.
pub open spec fn ascent_completes(acc: int, max: int, raws: Seq<int>) -> bool
    decreases raws.len(),
{
    if raws.len() == 0 {
        false
    } else {
        ascent_caps(acc, max, raws[0]) || ascent_completes(acc + raws[0], max, raws.drop_first())
    }
}

/// A jump that runs to its cap emits, over all its ascent ticks together,
/// exactly the budget that remained when it started: the per-tick clamp
/// loses nothing and adds nothing.
pub proof fn lemma_ascent_spends_exactly_the_budget(acc: int, max: int, raws: Seq<int>)
    requires
        acc < max,
        ascent_completes(acc, max, raws),
    ensures
        total_ascent(acc, max, raws) == max - acc,
    decreases raws.len(),
{
    if !ascent_caps(acc, max, raws[0]) {
        lemma_ascent_spends_exactly_the_budget(acc + raws[0], max, raws.drop_first());
    }
}

/// While a jump is in progress and this tick's ascent does not reach the
/// budget, the emitted vertical displacement is exactly the raw displacement
/// `rise_speed * dt`, and the accumulated height strictly increases (the raw
/// displacement of a tick of positive duration is positive).
pub proof fn lemma_ascent_uncapped(acc: int, max: int, raw: int)
    requires
        0 <= acc < max,
        0 < raw,
        !ascent_caps(acc, max, raw),
    ensures
        ascent_delta(acc, max, raw) == raw,
        acc + ascent_delta(acc, max, raw) > acc,
        acc + ascent_delta(acc, max, raw) < max,
{
}

/// Once the accumulated height plus the raw displacement reaches the budget,
/// the emitted displacement is exactly the budget's remainder `max - acc` —
/// never more than the raw displacement — and it completes the budget
/// exactly.
pub proof fn lemma_ascent_capped(acc: int, max: int, raw: int)
    requires
        0 <= acc < max,
        0 <= raw,
        ascent_caps(acc, max, raw),
    ensures
        ascent_delta(acc, max, raw) == max - acc,
        acc + ascent_delta(acc, max, raw) == max,
        0 < ascent_delta(acc, max, raw) <= raw,
{
}

} // verus!
