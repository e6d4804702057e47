use neko::assets::{SpriteBase, SpriteFrameKey};
use neko::behavior::{behavior_step, catch_cursor, stay_idle};
use neko::state::{frame_for, Direction, NekoSoundEvent, NekoState};

#[test]
fn frame_selection_uses_awake_single_frame() {
    assert_eq!(frame_for(SpriteBase::Awake, 0, 8), SpriteFrameKey::Awake);
    assert_eq!(frame_for(SpriteBase::Awake, 99, 8), SpriteFrameKey::Awake);
}

#[test]
fn frame_selection_switches_after_minimum_threshold() {
    assert_eq!(frame_for(SpriteBase::Right, 7, 8), SpriteFrameKey::Right1);
    assert_eq!(frame_for(SpriteBase::Right, 8, 8), SpriteFrameKey::Right2);
}

#[test]
fn idle_state_sets_expected_animation_family() {
    let mut state = NekoState::new();
    stay_idle(&mut state);
    assert_eq!(state.state, 1);
    assert_eq!(state.sprite_base, SpriteBase::Awake);

    state.state = 5;
    stay_idle(&mut state);
    assert_eq!(state.sprite_base, SpriteBase::Scratch);

    state.state = 10;
    stay_idle(&mut state);
    assert_eq!(state.sprite_base, SpriteBase::Yawn);
    assert_eq!(state.min, 32);
    assert_eq!(state.max, 64);

    state.state = 15;
    stay_idle(&mut state);
    assert_eq!(state.sprite_base, SpriteBase::Sleep);
}

#[test]
fn catch_cursor_resets_idle_timing_and_moves_diagonally() {
    let mut state = NekoState::new();
    let mut window_pos = (50.0_f32, 50.0_f32);
    state.state = 14;
    state.min = 32;
    state.max = 64;

    // The offset (20, -20) lies in the up-right sector; the window moves one
    // diagonal step of speed 2.0 in it.
    let direction = Direction::UpRight;
    catch_cursor(&mut state, direction);
    let (sx, sy) = direction.step_signs();
    let diagonal_speed = 2.0_f32 / 2.0_f32.sqrt();
    window_pos.0 += sx as f32 * diagonal_speed;
    window_pos.1 += sy as f32 * diagonal_speed;

    assert_eq!(state.state, 0);
    assert_eq!(state.min, 8);
    assert_eq!(state.max, 16);
    assert_eq!(state.sprite_base, SpriteBase::UpRight);
    assert!(window_pos.0 > 50.0);
    assert!(window_pos.1 < 50.0);
}

#[test]
fn step_signs_follow_screen_axes() {
    assert_eq!(Direction::Up.step_signs(), (0, -1));
    assert_eq!(Direction::UpRight.step_signs(), (1, -1));
    assert_eq!(Direction::Right.step_signs(), (1, 0));
    assert_eq!(Direction::DownRight.step_signs(), (1, 1));
    assert_eq!(Direction::Down.step_signs(), (0, 1));
    assert_eq!(Direction::DownLeft.step_signs(), (-1, 1));
    assert_eq!(Direction::Left.step_signs(), (-1, 0));
    assert_eq!(Direction::UpLeft.step_signs(), (-1, -1));
}

#[test]
fn sprite_base_of_each_direction() {
    assert_eq!(Direction::Up.sprite_base(), SpriteBase::Up);
    assert_eq!(Direction::DownLeft.sprite_base(), SpriteBase::DownLeft);
    assert_eq!(Direction::UpLeft.sprite_base(), SpriteBase::UpLeft);
}

#[test]
fn new_state_starts_awake_with_chase_timing() {
    let state = NekoState::new();
    assert!(!state.waiting);
    assert_eq!(state.count, 0);
    assert_eq!((state.min, state.max), (8, 16));
    assert_eq!(state.state, 0);
    assert_eq!(state.sprite_base, SpriteBase::Awake);
    assert_eq!(state.last_frame, None);
    assert_eq!(state.current_frame(), SpriteFrameKey::Awake);
}

#[test]
fn stay_idle_keeps_sleeping_for_negative_stages() {
    let mut state = NekoState::new();
    state.state = -3;
    stay_idle(&mut state);
    assert_eq!(state.state, -3);
    assert_eq!(state.sprite_base, SpriteBase::Sleep);
}

#[test]
fn chasing_tick_moves_and_counts() {
    let mut state = NekoState::new();
    let outcome = behavior_step(&mut state, 100, false, Direction::Left);
    assert_eq!(outcome.movement, Some(Direction::Left));
    assert!(outcome.sounds.is_empty());
    assert_eq!(state.count, 1);
    assert_eq!(state.distance, 100);
    assert_eq!(state.state, 0);
    assert_eq!(state.sprite_base, SpriteBase::Left);
}

#[test]
fn idle_tick_enters_first_stage_without_moving() {
    let mut state = NekoState::new();
    let outcome = behavior_step(&mut state, 10, false, Direction::Left);
    assert_eq!(outcome.movement, None);
    assert!(outcome.sounds.is_empty());
    assert_eq!(state.state, 1);
    assert_eq!(state.sprite_base, SpriteBase::Awake);
}

#[test]
fn distance_of_window_size_is_not_caught() {
    let mut state = NekoState::new();
    let outcome = behavior_step(&mut state, 32, false, Direction::Down);
    assert_eq!(outcome.movement, Some(Direction::Down));
    let mut state = NekoState::new();
    let outcome = behavior_step(&mut state, 31, false, Direction::Down);
    assert_eq!(outcome.movement, None);
}

#[test]
fn stage_advances_when_timer_runs_out() {
    let mut state = NekoState::new();
    state.state = 3;
    state.count = 16;
    let outcome = behavior_step(&mut state, 0, false, Direction::Up);
    assert!(outcome.sounds.is_empty());
    assert_eq!(state.count, 0);
    assert_eq!(state.state, 4);
    assert_eq!(state.sprite_base, SpriteBase::Awake);
}

#[test]
fn yawn_cue_at_frame_switch_of_yawning() {
    let mut state = NekoState::new();
    state.state = 10;
    state.min = 32;
    state.max = 64;
    state.count = 31;
    let outcome = behavior_step(&mut state, 0, false, Direction::Up);
    assert_eq!(outcome.sounds, vec![NekoSoundEvent::IdleYawn]);
    assert_eq!(state.count, 32);
    assert_eq!(state.sprite_base, SpriteBase::Yawn);
}

#[test]
fn sleep_cue_when_entering_sleep() {
    let mut state = NekoState::new();
    state.state = 12;
    state.min = 32;
    state.max = 64;
    state.count = 64;
    let outcome = behavior_step(&mut state, 0, false, Direction::Up);
    assert_eq!(outcome.sounds, vec![NekoSoundEvent::Sleep]);
    assert_eq!(state.state, 13);
    assert_eq!(state.count, 0);
}

#[test]
fn wake_cue_when_sleeping_cat_chases() {
    let mut state = NekoState::new();
    state.state = 20;
    state.min = 32;
    state.max = 64;
    state.count = 40;
    let outcome = behavior_step(&mut state, 200, false, Direction::Right);
    assert_eq!(outcome.sounds, vec![NekoSoundEvent::Wake]);
    assert_eq!(outcome.movement, Some(Direction::Right));
    assert_eq!(state.state, 0);
    assert_eq!((state.min, state.max), (8, 16));
    // 41 ticks exceed the chase stage of 16, so the timer restarts.
    assert_eq!(state.count, 0);
}

#[test]
fn left_click_toggles_waiting_only_when_idle() {
    let mut state = NekoState::new();
    behavior_step(&mut state, 5, true, Direction::Up);
    assert!(state.waiting);
    // While waiting the cat stays idle even far from the cursor.
    let outcome = behavior_step(&mut state, 500, false, Direction::Up);
    assert_eq!(outcome.movement, None);
    behavior_step(&mut state, 500, true, Direction::Up);
    assert!(!state.waiting);
    let outcome = behavior_step(&mut state, 500, true, Direction::Up);
    assert_eq!(outcome.movement, Some(Direction::Up));
    assert!(!state.waiting);
}

#[test]
fn frame_change_is_reported_once() {
    let mut state = NekoState::new();
    assert_eq!(state.next_frame_change(), Some(SpriteFrameKey::Awake));
    assert_eq!(state.last_frame, Some(SpriteFrameKey::Awake));
    assert_eq!(state.next_frame_change(), None);
    state.sprite_base = SpriteBase::Wash;
    state.count = 9;
    assert_eq!(state.next_frame_change(), Some(SpriteFrameKey::Wash2));
    assert_eq!(state.next_frame_change(), None);
}
