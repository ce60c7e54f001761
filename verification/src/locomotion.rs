//! The locomotion state machine: once per fixed tick, given the pressed-key
//! set, the tick duration, and the kinematic controller's feedback from the
//! previous tick, it computes the translation request for the physics
//! collaborator and the character's next action state, jump record and
//! facing.

use vstd::prelude::*;

use crate::config::Config;
use crate::config::MAX_SPEED;
use crate::config::MAX_TICK_MS;
use crate::jump::JumpState;
use crate::jump::ascent_caps;
use crate::jump::ascent_delta;
use crate::jump::rise_step;
use crate::state::ActionState;
use crate::state::Facing;
use crate::state::facing_after_step;

verus! {

/// Boolean pressed/held state of the four controls the machine reads, as of
/// this tick. There is no buffering contract beyond "pressed this tick".
#[derive(Clone, Copy, Debug, PartialEq, Eq, Structural)]
pub struct InputState {
    /// Move-left is held.
    pub left: bool,
    /// Move-right is held.
    pub right: bool,
    /// Jump is held.
    pub jump: bool,
    /// The run modifier is held.
    pub run_modifier: bool,
}

impl InputState {
    /// No control held.
    pub fn released() -> (r: InputState)
        ensures
            r == (InputState { left: false, right: false, jump: false, run_modifier: false }),
    {
        InputState { left: false, right: false, jump: false, run_modifier: false }
    }
}

/// What the kinematic controller reported after resolving the previous
/// tick's translation request against world geometry. Read-only to the core.
#[derive(Clone, Copy, Debug, PartialEq, Eq, Structural)]
pub struct ControllerFeedback {
    /// The character rests on solid geometry as of the previous resolution.
    pub grounded: bool,
    /// Horizontal component of the desired translation the controller was
    /// given on the previous tick, in thousandths of a pixel.
    pub translation_x: i64,
    /// Vertical component of that desired translation.
    pub translation_y: i64,
}

/// A per-tick displacement request for the kinematic controller, in
/// thousandths of a pixel. It is a displacement, not an absolute position.
#[derive(Clone, Copy, Debug, PartialEq, Eq, Structural)]
pub struct Translation {
    /// Horizontal component; positive is rightward.
    pub x: i64,
    /// Vertical component; positive is upward.
    pub y: i64,
}

/// Everything the state machine owns about the controlled character: the
/// authoritative action state, the live jump record if one exists, and the
/// horizontal facing.
#[derive(Clone, Copy, Debug)]
pub struct Player {
    /// The discrete locomotion mode.
    pub state: ActionState,
    /// The live jump record; exists only while ascending.
    pub jump: Option<JumpState>,
    /// Horizontal facing; sticky across ticks without horizontal movement.
    pub facing: Facing,
}

/// The horizontal displacement requested for one tick: zero without a
/// horizontal key, otherwise `walk_speed * dt` (or `run_speed * dt` with the
/// run modifier) in the pressed direction; opposite keys cancel out.
pub open spec fn horizontal_delta(input: InputState, cfg: Config, dt: int) -> int {
    let speed: int = if input.run_modifier {
        cfg.run_speed as int
    } else {
        cfg.walk_speed as int
    };
    (if input.right {
        speed * dt
    } else {
        0
    }) - (if input.left {
        speed * dt
    } else {
        0
    })
}

/// How ground contact reshapes the jump record before the vertical step: a
/// grounded report destroys a live jump (its presence excludes a re-trigger
/// on the same tick), and a grounded character with jump held and no live
/// jump starts a fresh one with nothing of the budget spent.
pub open spec fn jump_on_contact(j: Option<JumpState>, input: InputState, grounded: bool) -> Option<
    JumpState,
> {
    match j {
        Some(_) => if grounded {
            None
        } else {
            j
        },
        None => if grounded && input.jump {
            Some(JumpState { accumulated_height: 0 })
        } else {
            None
        },
    }
}

/// The vertical displacement emitted for one tick, the surviving jump record,
/// and whether this tick's ascent reached the jump budget: a live jump rises
/// by `rise_speed * dt` clamped to the budget's remainder, a grounded
/// character without one stays put, and an airborne character without one
/// descends by `fall_speed * dt`.
pub open spec fn vertical_outcome(j: Option<JumpState>, grounded: bool, cfg: Config, dt: int) -> (
    int,
    Option<JumpState>,
    bool,
) {
    match j {
        Some(js) => {
            let raw = cfg.rise_speed * dt;
            let acc = js.accumulated_height as int;
            let max = cfg.max_jump_height as int;
            if ascent_caps(acc, max, raw) {
                (ascent_delta(acc, max, raw), None, true)
            } else {
                (
                    ascent_delta(acc, max, raw),
                    Some(JumpState { accumulated_height: (acc + raw) as u64 }),
                    false,
                )
            }
        },
        None => if grounded {
            (0, None, false)
        } else {
            (-(cfg.fall_speed * dt), None, false)
        },
    }
}

/// The target action state, in priority order evaluated after the movement
/// and jump logic has run: Jump while a jump survives, Fall when this tick's
/// ascent capped or the character is airborne without a jump, then Run, Walk
/// or Idle on the ground by the horizontal request and the run modifier.
pub open spec fn next_action(
    j: Option<JumpState>,
    capped: bool,
    grounded: bool,
    dx: int,
    run_modifier: bool,
) -> ActionState {
    if j is Some {
        ActionState::Jump
    } else if capped {
        ActionState::Fall
    } else if !grounded {
        ActionState::Fall
    } else if dx != 0 && run_modifier {
        ActionState::Run
    } else if dx != 0 {
        ActionState::Walk
    } else {
        ActionState::Idle
    }
}

/// One fixed tick of the whole machine: the translation request's two
/// components and the character record after the tick. The facing is updated
/// from this tick's own horizontal desired translation — the very value the
/// controller will echo back — never from a stale one.
pub open spec fn tick_spec(
    p: Player,
    cfg: Config,
    input: InputState,
    fb: ControllerFeedback,
    dt: int,
) -> (int, int, Player) {
    let dx = horizontal_delta(input, cfg, dt);
    let j0 = jump_on_contact(p.jump, input, fb.grounded);
    let vert = vertical_outcome(j0, fb.grounded, cfg, dt);
    let next = Player {
        state: next_action(vert.1, vert.2, fb.grounded, dx, input.run_modifier),
        jump: vert.1,
        facing: facing_after_step(p.facing, dx),
    };
    (dx, vert.0, next)
}

impl Player {
    /// A character record is valid for a configuration when its live jump, if
    /// any, has spent less than the jump budget, and a live jump only ever
    /// accompanies the Jump state.
    pub open spec fn wf(self, cfg: Config) -> bool {
        &&& (self.jump matches Some(j) ==> j.wf(cfg))
        &&& (self.jump is Some ==> self.state is Jump)
    }

    /// A fresh character before its first tick: in the Setup state, with no
    /// jump in progress, facing right. The first tick replaces Setup with a
    /// real mode.
    pub fn new() -> (p: Player)
        ensures
            p == (Player { state: ActionState::Setup, jump: None, facing: Facing::Right }),
            forall|cfg: Config| p.wf(cfg),
    {
        Player { state: ActionState::Setup, jump: None, facing: Facing::Right }
    }

    /// Run one fixed tick: read the held keys and the previous tick's
    /// controller feedback, update the action state, jump record and facing
    /// in place, and return the translation request to hand to the kinematic
    /// controller. When no controlled character has been spawned yet the
    /// caller simply skips the tick; that silent no-op is the caller's, not
    /// this function's.
    pub fn tick(
        &mut self,
        cfg: &Config,
        input: &InputState,
        feedback: &ControllerFeedback,
        dt_ms: u64,
    ) -> (t: Translation)
        requires
            cfg.wf(),
            old(self).wf(*cfg),
            dt_ms <= MAX_TICK_MS,
        ensures
            ({
                let r = tick_spec(*old(self), *cfg, *input, *feedback, dt_ms as int);
                &&& t.x == r.0
                &&& t.y == r.1
                &&& *final(self) == r.2
            }),
            final(self).wf(*cfg),
    {
        let speed = if input.run_modifier {
            cfg.run_speed
        } else {
            cfg.walk_speed
        };
        proof {
            assert(speed * dt_ms <= MAX_SPEED * MAX_TICK_MS) by (nonlinear_arith)
                requires
                    speed <= MAX_SPEED,
                    dt_ms <= MAX_TICK_MS,
            ;
            assert(cfg.fall_speed * dt_ms <= MAX_SPEED * MAX_TICK_MS) by (nonlinear_arith)
                requires
                    cfg.fall_speed <= MAX_SPEED,
                    dt_ms <= MAX_TICK_MS,
            ;
            assert(cfg.rise_speed * dt_ms <= MAX_SPEED * MAX_TICK_MS) by (nonlinear_arith)
                requires
                    cfg.rise_speed <= MAX_SPEED,
                    dt_ms <= MAX_TICK_MS,
            ;
        }
        let step = speed * dt_ms;
        let dx: i64 = (if input.right {
            step as i64
        } else {
            0
        }) - (if input.left {
            step as i64
        } else {
            0
        });

        let contact_jump: Option<JumpState> = match self.jump {
            Some(j) => if feedback.grounded {
                None
            } else {
                Some(j)
            },
            None => if feedback.grounded && input.jump {
                Some(JumpState::begin())
            } else {
                None
            },
        };

        let dy: i64;
        let surviving: Option<JumpState>;
        let capped: bool;
        match contact_jump {
            Some(j) => {
                let (d, nj) = rise_step(j, cfg, dt_ms);
                dy = d as i64;
                capped = nj.is_none();
                surviving = nj;
            },
            None => {
                if feedback.grounded {
                    dy = 0;
                    surviving = None;
                    capped = false;
                } else {
                    let descent = cfg.fall_speed * dt_ms;
                    dy = -(descent as i64);
                    surviving = None;
                    capped = false;
                }
            },
        }

        self.state = if surviving.is_some() {
            ActionState::Jump
        } else if capped {
            ActionState::Fall
        } else if !feedback.grounded {
            ActionState::Fall
        } else if dx != 0 && input.run_modifier {
            ActionState::Run
        } else if dx != 0 {
            ActionState::Walk
        } else {
            ActionState::Idle
        };
        self.jump = surviving;
        self.facing.update(dx);

        Translation { x: dx, y: dy }
    }
}

/// Facing is sticky at the level of a whole tick: whenever the two
/// horizontal keys agree — both released or both held, so the horizontal
/// request is exactly zero — the facing comes out of the tick unchanged,
/// whatever the feedback, the jump record and the vertical movement do.
pub proof fn lemma_tick_facing_sticky(
    p: Player,
    cfg: Config,
    input: InputState,
    fb: ControllerFeedback,
    dt: int,
)
    requires
        input.left == input.right,
    ensures
        tick_spec(p, cfg, input, fb, dt).0 == 0,
        tick_spec(p, cfg, input, fb, dt).2.facing == p.facing,
{
}

/// Setup never survives a tick: whatever the input and feedback, the first
/// tick commits a real locomotion mode, and no later tick ever returns to
/// Setup.
pub proof fn lemma_tick_resolves_setup(
    p: Player,
    cfg: Config,
    input: InputState,
    fb: ControllerFeedback,
    dt: int,
)
    ensures
        !(tick_spec(p, cfg, input, fb, dt).2.state is Setup),
{
}

/// While a jump is live on an airborne tick and its ascent has not yet
/// reached the jump budget, the emitted vertical displacement is exactly
/// `rise_speed * dt`, the accumulated height strictly increases by that
/// amount, and the character stays in the Jump state.
pub proof fn lemma_tick_ascending(
    p: Player,
    cfg: Config,
    input: InputState,
    fb: ControllerFeedback,
    dt: int,
    js: JumpState,
)
    requires
        cfg.wf(),
        p.wf(cfg),
        0 < dt <= MAX_TICK_MS,
        !fb.grounded,
        p.jump == Some(js),
        !ascent_caps(js.accumulated_height as int, cfg.max_jump_height as int, cfg.rise_speed * dt),
    ensures
        ({
            let r = tick_spec(p, cfg, input, fb, dt);
            &&& r.1 == cfg.rise_speed * dt
            &&& r.2.jump == Some(
                JumpState {
                    accumulated_height: (js.accumulated_height + cfg.rise_speed * dt) as u64,
                },
            )
            &&& (r.2.jump matches Some(j2) && j2.accumulated_height > js.accumulated_height)
            &&& r.2.state is Jump
        }),
{
    assert(cfg.rise_speed * dt > 0) by (nonlinear_arith)
        requires
            cfg.rise_speed > 0,
            dt > 0,
    ;
}

/// Once the accumulated height plus this tick's ascent reaches the jump
/// budget, the emitted vertical displacement is exactly the budget's
/// remainder `max_jump_height - accumulated_height`, the jump record is
/// destroyed, and the action state becomes Fall on this very tick.
pub proof fn lemma_tick_jump_caps(
    p: Player,
    cfg: Config,
    input: InputState,
    fb: ControllerFeedback,
    dt: int,
    js: JumpState,
)
    requires
        cfg.wf(),
        p.wf(cfg),
        0 <= dt <= MAX_TICK_MS,
        !fb.grounded,
        p.jump == Some(js),
        ascent_caps(js.accumulated_height as int, cfg.max_jump_height as int, cfg.rise_speed * dt),
    ensures
        ({
            let r = tick_spec(p, cfg, input, fb, dt);
            &&& r.1 == cfg.max_jump_height - js.accumulated_height
            &&& r.2.jump is None
            &&& r.2.state is Fall
        }),
{
}

/// A grounded tick with no key held and no live jump requests no movement,
/// settles in the Idle state, and leaves the facing untouched.
pub proof fn lemma_tick_grounded_idle(
    p: Player,
    cfg: Config,
    input: InputState,
    fb: ControllerFeedback,
    dt: int,
)
    requires
        cfg.wf(),
        p.wf(cfg),
        0 <= dt <= MAX_TICK_MS,
        fb.grounded,
        p.jump is None,
        !input.left,
        !input.right,
        !input.jump,
    ensures
        ({
            let r = tick_spec(p, cfg, input, fb, dt);
            &&& r.0 == 0
            &&& r.1 == 0
            &&& r.2.state is Idle
            &&& r.2.jump is None
            &&& r.2.facing == p.facing
        }),
{
}

/// A grounded tick of positive duration with only move-right held walks: the
/// horizontal request is exactly `walk_speed * dt`, strictly positive, the
/// state becomes Walk (or Run, with the run modifier held, at `run_speed *
/// dt`), and the facing turns Right.
pub proof fn lemma_tick_right(
    p: Player,
    cfg: Config,
    input: InputState,
    fb: ControllerFeedback,
    dt: int,
)
    requires
        cfg.wf(),
        p.wf(cfg),
        0 < dt <= MAX_TICK_MS,
        fb.grounded,
        p.jump is None,
        input.right,
        !input.left,
        !input.jump,
    ensures
        ({
            let r = tick_spec(p, cfg, input, fb, dt);
            let speed: int = if input.run_modifier {
                cfg.run_speed as int
            } else {
                cfg.walk_speed as int
            };
            &&& r.0 == speed * dt
            &&& r.0 > 0
            &&& r.1 == 0
            &&& r.2.state == (if input.run_modifier {
                ActionState::Run
            } else {
                ActionState::Walk
            })
            &&& r.2.facing is Right
        }),
{
    let speed: int = if input.run_modifier {
        cfg.run_speed as int
    } else {
        cfg.walk_speed as int
    };
    assert(speed * dt > 0) by (nonlinear_arith)
        requires
            speed > 0,
            dt > 0,
    ;
}

/// Pressing jump on a grounded tick with no live jump starts one: a fresh
/// jump record is created with nothing of the budget spent, this tick
/// already ascends by `rise_speed * dt`, and the state becomes Jump (as long
/// as one tick's ascent does not already exhaust the budget).
pub proof fn lemma_tick_jump_started(
    p: Player,
    cfg: Config,
    input: InputState,
    fb: ControllerFeedback,
    dt: int,
)
    requires
        cfg.wf(),
        p.wf(cfg),
        0 < dt <= MAX_TICK_MS,
        fb.grounded,
        p.jump is None,
        input.jump,
        !ascent_caps(0, cfg.max_jump_height as int, cfg.rise_speed * dt),
    ensures
        ({
            let r = tick_spec(p, cfg, input, fb, dt);
            &&& r.1 == cfg.rise_speed * dt
            &&& r.2.jump == Some(
                JumpState { accumulated_height: (cfg.rise_speed * dt) as u64 },
            )
            &&& r.2.state is Jump
        }),
{
}

/// An airborne tick with no live jump descends at the constant fall rate:
/// the emitted vertical displacement is exactly `-(fall_speed * dt)` and the
/// state becomes Fall.
pub proof fn lemma_tick_airborne_falls(
    p: Player,
    cfg: Config,
    input: InputState,
    fb: ControllerFeedback,
    dt: int,
)
    requires
        cfg.wf(),
        p.wf(cfg),
        0 <= dt <= MAX_TICK_MS,
        !fb.grounded,
        p.jump is None,
    ensures
        ({
            let r = tick_spec(p, cfg, input, fb, dt);
            &&& r.1 == -(cfg.fall_speed * dt)
            &&& r.2.state is Fall
            &&& r.2.jump is None
        }),
{
}

} // verus!
