use platformer_core::ActionState;
use platformer_core::AnimationCycle;
use platformer_core::AnimationIndices;
use platformer_core::CycleSettings;
use platformer_core::animation::presentation_step;
use platformer_core::animation::select_cycle;

fn walk_settings() -> CycleSettings {
    CycleSettings { indices: AnimationIndices { first: 16, last: 19 }, period_ms: 50 }
}

#[test]
fn new_cycle_shows_the_first_frame() {
    let c = AnimationCycle::new(walk_settings());
    assert_eq!(c.index, 16);
    assert_eq!(c.elapsed_ms, 0);
}

#[test]
fn walk_frames_wrap_after_four_advances() {
    // Frame range [16,19] with a 50 ms period: four consecutive 50 ms ticks
    // display 16, 17, 18, 19, 16 — wrapping after exactly last-first+1 steps.
    let mut c = AnimationCycle::new(walk_settings());
    let mut seen = vec![c.index];
    for _ in 0..4 {
        c.advance(50);
        seen.push(c.index);
    }
    assert_eq!(seen, vec![16, 17, 18, 19, 16]);
}

#[test]
fn long_tick_catches_up_several_frames() {
    let mut c = AnimationCycle::new(walk_settings());
    c.advance(125); // crosses two whole 50 ms boundaries, 25 ms remain
    assert_eq!(c.index, 18);
    assert_eq!(c.elapsed_ms, 25);
}

#[test]
fn short_ticks_accumulate_before_a_step() {
    let mut c = AnimationCycle::new(walk_settings());
    c.advance(30);
    assert_eq!(c.index, 16);
    assert_eq!(c.elapsed_ms, 30);
    c.advance(30);
    assert_eq!(c.index, 17);
    assert_eq!(c.elapsed_ms, 10);
}

#[test]
fn replacing_the_cycle_resets_clock_and_frame() {
    let mut c = AnimationCycle::new(walk_settings());
    c.advance(75);
    assert_eq!(c.index, 17);
    let run = CycleSettings { indices: AnimationIndices { first: 24, last: 31 }, period_ms: 500 };
    c.apply_settings(run);
    assert_eq!(c.index, 24);
    assert_eq!(c.elapsed_ms, 0);
    assert_eq!(c.period_ms, 500);
}

#[test]
fn reapplying_the_same_settings_changes_nothing() {
    let mut c = AnimationCycle::new(walk_settings());
    c.advance(75);
    let index = c.index;
    let elapsed = c.elapsed_ms;
    c.apply_settings(walk_settings());
    assert_eq!(c.index, index);
    assert_eq!(c.elapsed_ms, elapsed);
}

#[test]
fn settings_validation_fails_fast() {
    assert!(CycleSettings::new(16, 19, 0).is_none()); // a zero period is refused up front
    assert!(CycleSettings::new(19, 16, 50).is_none()); // so is an empty frame range
    assert_eq!(CycleSettings::new(16, 19, 50), Some(walk_settings()));
}

#[test]
fn selector_table_matches_each_state() {
    let idle = select_cycle(ActionState::Idle, 50).unwrap();
    assert_eq!(idle.indices, AnimationIndices { first: 0, last: 1 });
    assert_eq!(idle.period_ms, 350);

    let walk = select_cycle(ActionState::Walk, 50).unwrap();
    assert_eq!(walk.indices, AnimationIndices { first: 16, last: 19 });
    assert_eq!(walk.period_ms, 50);

    let run = select_cycle(ActionState::Run, 50).unwrap();
    assert_eq!(run.indices, AnimationIndices { first: 24, last: 31 });
    assert_eq!(run.period_ms, 500);

    let rise = select_cycle(ActionState::Jump, 50).unwrap();
    assert_eq!(rise.indices, AnimationIndices { first: 41, last: 43 });
    assert_eq!(rise.period_ms, 250);

    let fall = select_cycle(ActionState::Fall, 50).unwrap();
    assert_eq!(fall.indices, AnimationIndices { first: 43, last: 47 });
    assert_eq!(fall.period_ms, 250);

    assert!(select_cycle(ActionState::Setup, 50).is_none());
}

#[test]
fn low_draws_blink_and_high_draws_do_not() {
    let blink = select_cycle(ActionState::Idle, 0).unwrap();
    assert_eq!(blink.indices, AnimationIndices { first: 8, last: 9 });
    assert_eq!(blink.period_ms, 350);
    let last_blinking = select_cycle(ActionState::Idle, 8).unwrap();
    assert_eq!(last_blinking.indices, AnimationIndices { first: 8, last: 9 });
    let plain = select_cycle(ActionState::Idle, 9).unwrap();
    assert_eq!(plain.indices, AnimationIndices { first: 0, last: 1 });
    let high = select_cycle(ActionState::Idle, 99).unwrap();
    assert_eq!(high.indices, AnimationIndices { first: 0, last: 1 });
}

#[test]
fn selecting_twice_with_the_same_draw_is_idempotent() {
    let first = select_cycle(ActionState::Idle, 42);
    let second = select_cycle(ActionState::Idle, 42);
    assert_eq!(first, second);
}

#[test]
fn non_idle_selection_ignores_the_draw() {
    for state in [ActionState::Walk, ActionState::Run, ActionState::Jump, ActionState::Fall] {
        let low = select_cycle(state, 0);
        let high = select_cycle(state, 99);
        assert_eq!(low, high);
    }
}

#[test]
fn presentation_step_replaces_then_advances() {
    let idle = CycleSettings { indices: AnimationIndices { first: 0, last: 1 }, period_ms: 350 };
    let mut c = AnimationCycle::new(idle);
    c.advance(100);
    // The committed state is Walk now: the walk cycle replaces the idle one
    // (clock and frame reset) and then this tick's 50 ms advance one frame.
    presentation_step(&mut c, ActionState::Walk, 50, 50);
    assert_eq!(c.indices, AnimationIndices { first: 16, last: 19 });
    assert_eq!(c.index, 17);
    assert_eq!(c.elapsed_ms, 0);
}

#[test]
fn presentation_step_keeps_a_matching_cycle_running() {
    let mut c = AnimationCycle::new(walk_settings());
    presentation_step(&mut c, ActionState::Walk, 50, 30);
    assert_eq!(c.index, 16);
    assert_eq!(c.elapsed_ms, 30);
    presentation_step(&mut c, ActionState::Walk, 50, 30);
    assert_eq!(c.index, 17);
    assert_eq!(c.elapsed_ms, 10);
}

#[test]
fn setup_state_selects_nothing_but_the_clock_runs() {
    let mut c = AnimationCycle::new(walk_settings());
    presentation_step(&mut c, ActionState::Setup, 50, 60);
    assert_eq!(c.indices, AnimationIndices { first: 16, last: 19 });
    assert_eq!(c.index, 17);
    assert_eq!(c.elapsed_ms, 10);
}
