use platformer_core::ActionState;
use platformer_core::AnimationCycle;
use platformer_core::AnimationIndices;
use platformer_core::Config;
use platformer_core::ControllerFeedback;
use platformer_core::CycleSettings;
use platformer_core::Facing;
use platformer_core::InputState;
use platformer_core::Player;
use platformer_core::animation::presentation_step;

const DT: u64 = 50;

/// A minimal stand-in for the kinematic controller: the character moves
/// freely above a flat floor at height zero, and a tick that ends on the
/// floor reports the character grounded.
struct FlatFloor {
    height: i64,
}

impl FlatFloor {
    fn resolve(&mut self, dx: i64, dy: i64) -> ControllerFeedback {
        self.height += dy;
        if self.height < 0 {
            self.height = 0;
        }
        ControllerFeedback { grounded: self.height == 0, translation_x: dx, translation_y: dy }
    }
}

#[test]
fn a_session_walks_jumps_and_lands() {
    let cfg = Config::standard();
    let mut player = Player::new();
    let mut world = FlatFloor { height: 0 };
    let mut cycle = AnimationCycle::new(
        CycleSettings { indices: AnimationIndices { first: 0, last: 1 }, period_ms: 350 },
    );
    let mut feedback = ControllerFeedback { grounded: true, translation_x: 0, translation_y: 0 };
    let no_blink: u8 = 50;

    // Grounded with no input: Idle on the plain idle frames.
    let t = player.tick(&cfg, &InputState::released(), &feedback, DT);
    feedback = world.resolve(t.x, t.y);
    presentation_step(&mut cycle, player.state, no_blink, DT);
    assert_eq!(player.state, ActionState::Idle);
    assert_eq!(cycle.indices, AnimationIndices { first: 0, last: 1 });

    // Press right only: Walk, a positive walk-speed request, facing right.
    let right = InputState { left: false, right: true, jump: false, run_modifier: false };
    let t = player.tick(&cfg, &right, &feedback, DT);
    assert_eq!(t.x, 5_000);
    feedback = world.resolve(t.x, t.y);
    presentation_step(&mut cycle, player.state, no_blink, DT);
    assert_eq!(player.state, ActionState::Walk);
    assert_eq!(player.facing, Facing::Right);
    assert_eq!(cycle.indices, AnimationIndices { first: 16, last: 19 });

    // Right with the run modifier: Run at run speed.
    let run = InputState { left: false, right: true, jump: false, run_modifier: true };
    let t = player.tick(&cfg, &run, &feedback, DT);
    assert_eq!(t.x, 17_500);
    feedback = world.resolve(t.x, t.y);
    presentation_step(&mut cycle, player.state, no_blink, DT);
    assert_eq!(player.state, ActionState::Run);
    assert_eq!(cycle.indices, AnimationIndices { first: 24, last: 31 });

    // Press jump while grounded: a jump starts and the rise frames show.
    let jump = InputState { left: false, right: false, jump: true, run_modifier: false };
    let t = player.tick(&cfg, &jump, &feedback, DT);
    assert_eq!(t.y, 22_500);
    feedback = world.resolve(t.x, t.y);
    presentation_step(&mut cycle, player.state, no_blink, DT);
    assert_eq!(player.state, ActionState::Jump);
    assert!(player.jump.is_some());
    assert_eq!(cycle.indices, AnimationIndices { first: 41, last: 43 });

    // Keep ascending until the budget caps; the capping tick emits exactly
    // the remainder and hands over to Fall.
    let mut capped_delta: i64 = 0;
    for _ in 0..20 {
        let before = player.jump.map(|j| j.accumulated_height);
        let t = player.tick(&cfg, &InputState::released(), &feedback, DT);
        feedback = world.resolve(t.x, t.y);
        presentation_step(&mut cycle, player.state, no_blink, DT);
        if player.jump.is_none() {
            capped_delta = t.y;
            assert_eq!(t.y, (cfg.max_jump_height - before.unwrap()) as i64);
            break;
        }
    }
    assert_eq!(capped_delta, 5_000);
    assert_eq!(player.state, ActionState::Fall);
    assert_eq!(cycle.indices, AnimationIndices { first: 43, last: 47 });

    // Airborne without a jump: constant descent until the floor reports
    // ground contact again, then Idle.
    let mut landed = false;
    for _ in 0..40 {
        let t = player.tick(&cfg, &InputState::released(), &feedback, DT);
        if !feedback.grounded {
            assert_eq!(t.y, -9_000);
            assert_eq!(player.state, ActionState::Fall);
        }
        feedback = world.resolve(t.x, t.y);
        presentation_step(&mut cycle, player.state, no_blink, DT);
        if feedback.grounded && player.state == ActionState::Idle {
            landed = true;
            break;
        }
    }
    assert!(landed);
    assert_eq!(cycle.indices, AnimationIndices { first: 0, last: 1 });
    // Facing stayed sticky through the whole airborne stretch.
    assert_eq!(player.facing, Facing::Right);
}
