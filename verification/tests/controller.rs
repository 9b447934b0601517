use character_controller::camera::CameraOrientation;
use character_controller::input::Inputs;
use character_controller::math::{mul_milli, Vec2, Vec3};
use character_controller::player::{
    dash_update, ground_probe_update, jump_update, movement_update, select_animation, tick,
    AnimationClip, Character, Player, DASH_IMPULSE, DASH_TIME_MS, JUMP_SPEED, MAX_DASHES,
    NO_DASH_TIME, RESPAWN_HEIGHT,
};

fn axis_camera() -> CameraOrientation {
    CameraOrientation {
        forward: Vec3 { x: 0, y: 0, z: 1000 },
        right: Vec3 { x: 1000, y: 0, z: 0 },
    }
}

fn airborne_player() -> Player {
    Player {
        is_jumping: true,
        jumps_without_ground: 1,
        is_grounded: false,
        is_dashing: false,
        dash_count: 3,
        last_dash_time: NO_DASH_TIME,
    }
}

#[test]
fn player_default_is_spawn_state() {
    let p = Player::default();
    assert!(!p.is_jumping);
    assert_eq!(p.jumps_without_ground, 0);
    assert!(!p.is_grounded);
    assert!(!p.is_dashing);
    assert_eq!(p.dash_count, 0);
    assert_eq!(p.last_dash_time, NO_DASH_TIME);
}

#[test]
fn inputs_default_is_neutral() {
    let inputs = Inputs::default();
    assert_eq!(inputs.player_movement, Vec2 { x: 0, y: 0 });
    assert_eq!(inputs.camera_movement, Vec2 { x: 0, y: 0 });
    assert!(!inputs.jump_triggered);
    assert!(!inputs.dash_triggered);
}

#[test]
fn ground_probe_hit_clears_jump_state() {
    let mut p = airborne_player();
    ground_probe_update(&mut p, true);
    assert!(p.is_grounded);
    assert!(!p.is_jumping);
    assert_eq!(p.jumps_without_ground, 0);
    // dash bookkeeping is untouched by the probe
    assert_eq!(p.dash_count, 3);
    assert_eq!(p.last_dash_time, NO_DASH_TIME);
}

#[test]
fn ground_probe_miss_leaves_jump_state() {
    let mut p = airborne_player();
    ground_probe_update(&mut p, false);
    assert!(!p.is_grounded);
    assert!(p.is_jumping);
    assert_eq!(p.jumps_without_ground, 1);
}

#[test]
fn jump_sets_vertical_velocity_and_second_jump_is_dropped() {
    let mut p = Player::default();
    let mut velocity = Vec3 { x: 100, y: 0, z: 50 };
    jump_update(&mut p, &mut velocity, true);
    assert_eq!(velocity, Vec3 { x: 100, y: JUMP_SPEED, z: 50 });
    assert!(p.is_jumping);
    assert_eq!(p.jumps_without_ground, 1);
    // the immediately following trigger, before any ground contact, is dropped
    velocity.y = 4;
    jump_update(&mut p, &mut velocity, true);
    assert_eq!(velocity, Vec3 { x: 100, y: 4, z: 50 });
    assert!(p.is_jumping);
    assert_eq!(p.jumps_without_ground, 1);
}

#[test]
fn jump_without_trigger_changes_nothing() {
    let mut p = Player::default();
    let mut velocity = Vec3 { x: 1, y: 2, z: 3 };
    jump_update(&mut p, &mut velocity, false);
    assert_eq!(velocity, Vec3 { x: 1, y: 2, z: 3 });
    assert_eq!(p, Player::default());
}

#[test]
fn jump_allowed_again_after_grounding() {
    let mut p = airborne_player();
    let mut velocity = Vec3 { x: 0, y: -900, z: 0 };
    ground_probe_update(&mut p, true);
    jump_update(&mut p, &mut velocity, true);
    assert_eq!(velocity.y, JUMP_SPEED);
    assert!(p.is_jumping);
    assert_eq!(p.jumps_without_ground, 1);
}

#[test]
fn dash_applies_backward_impulse_and_opens_window() {
    let mut p = Player::default();
    let mut impulse = Vec3 { x: 0, y: 0, z: 0 };
    let back = Vec3 { x: -1000, y: 0, z: 0 };
    let spent = dash_update(&mut p, &mut impulse, back, true, 1000);
    assert!(spent);
    assert!(p.is_dashing);
    assert_eq!(p.dash_count, 1);
    assert_eq!(p.last_dash_time, 1000);
    assert_eq!(impulse, Vec3 { x: -DASH_IMPULSE, y: 0, z: 0 });
}

#[test]
fn dash_window_expires_strictly_after_its_length() {
    let mut p = Player::default();
    let mut impulse = Vec3 { x: 0, y: 0, z: 0 };
    let back = Vec3 { x: 0, y: 0, z: -1000 };
    dash_update(&mut p, &mut impulse, back, true, 1000);
    // well inside the window
    dash_update(&mut p, &mut impulse, back, false, 1100);
    assert!(p.is_dashing);
    assert_eq!(impulse.z, -DASH_IMPULSE);
    // at exactly the window's end the dash is still active: it is cleared
    // only strictly after the window has elapsed
    dash_update(&mut p, &mut impulse, back, false, 1000 + DASH_TIME_MS);
    assert!(p.is_dashing);
    // one millisecond later it is gone and the impulse is cleared
    dash_update(&mut p, &mut impulse, back, false, 1000 + DASH_TIME_MS + 1);
    assert!(!p.is_dashing);
    assert_eq!(p.last_dash_time, NO_DASH_TIME);
    assert_eq!(impulse, Vec3 { x: 0, y: 0, z: 0 });
}

#[test]
fn dash_request_while_dashing_is_ignored() {
    let mut p = Player::default();
    let mut impulse = Vec3 { x: 0, y: 0, z: 0 };
    let back = Vec3 { x: 1000, y: 0, z: 0 };
    dash_update(&mut p, &mut impulse, back, true, 0);
    let spent = dash_update(&mut p, &mut impulse, back, true, 100);
    assert!(!spent);
    assert_eq!(p.dash_count, 1);
    assert_eq!(p.last_dash_time, 0);
}

#[test]
fn dash_at_budget_edge_succeeds_then_is_refused_for_good() {
    let mut p = Player {
        dash_count: MAX_DASHES - 1,
        ..Player::default()
    };
    let mut impulse = Vec3 { x: 0, y: 0, z: 0 };
    let back = Vec3 { x: 1000, y: 0, z: 0 };
    let spent = dash_update(&mut p, &mut impulse, back, true, 500);
    assert!(spent);
    assert_eq!(p.dash_count, MAX_DASHES);
    // let the window expire, then ask again: the budget is lifetime
    dash_update(&mut p, &mut impulse, back, false, 2000);
    assert!(!p.is_dashing);
    let spent_again = dash_update(&mut p, &mut impulse, back, true, 2100);
    assert!(!spent_again);
    assert_eq!(p.dash_count, MAX_DASHES);
    assert!(!p.is_dashing);
    assert_eq!(impulse, Vec3 { x: 0, y: 0, z: 0 });
}

#[test]
fn dash_count_never_decreases_and_never_exceeds_budget() {
    let mut ch = Character::new(Vec3 { x: 0, y: 1000, z: 0 });
    let camera = axis_camera();
    let inputs = Inputs {
        dash_triggered: true,
        ..Inputs::default()
    };
    let back = Vec3 { x: 0, y: 0, z: -1000 };
    let mut previous = ch.player.dash_count;
    for i in 0..300i64 {
        tick(&mut ch, &inputs, &camera, back, true, i * 1000);
        assert!(ch.player.dash_count >= previous);
        assert!(ch.player.dash_count <= MAX_DASHES);
        previous = ch.player.dash_count;
    }
    assert_eq!(ch.player.dash_count, MAX_DASHES);
}

#[test]
fn movement_is_camera_relative_and_preserves_vertical_velocity() {
    let p = Player::default();
    let camera = axis_camera();
    let mut position = Vec3 { x: 0, y: 0, z: 0 };
    let mut velocity = Vec3 { x: 9, y: 2500, z: 9 };
    // player_movement (1, 0) with PLAYER_SPEED 10 gives velocity (10, _, 0)
    let out = movement_update(&p, &mut position, &mut velocity, Vec2 { x: 1000, y: 0 }, &camera);
    assert_eq!(velocity, Vec3 { x: 10_000, y: 2500, z: 0 });
    assert_eq!(out.target, Vec3 { x: 2000, y: 0, z: 0 });
    assert_eq!(out.look_target, Some(Vec3 { x: -2000, y: 0, z: 0 }));
}

#[test]
fn movement_mixes_both_axes() {
    let p = Player::default();
    let camera = axis_camera();
    let mut position = Vec3 { x: 100, y: 700, z: 200 };
    let mut velocity = Vec3 { x: 0, y: -1250, z: 0 };
    let out = movement_update(
        &p,
        &mut position,
        &mut velocity,
        Vec2 { x: -1000, y: 1000 },
        &camera,
    );
    assert_eq!(velocity, Vec3 { x: -10_000, y: -1250, z: 10_000 });
    assert_eq!(out.target, Vec3 { x: -1900, y: 700, z: 2200 });
    assert_eq!(out.look_target, Some(Vec3 { x: 2100, y: 700, z: -1800 }));
}

#[test]
fn movement_rounds_toward_zero() {
    let p = Player::default();
    let camera = CameraOrientation {
        forward: Vec3 { x: 0, y: 0, z: 1000 },
        right: Vec3 { x: 999, y: 0, z: 0 },
    };
    let mut position = Vec3 { x: 0, y: 0, z: 0 };
    let mut velocity = Vec3 { x: 0, y: 0, z: 0 };
    // -0.333 * 10 = -3.330 along an almost-unit right vector:
    // 999 * -3330 / 1000 is -3326.67, which rounds toward zero
    movement_update(&p, &mut position, &mut velocity, Vec2 { x: -333, y: 0 }, &camera);
    assert_eq!(velocity.x, -3326);
    assert_eq!(velocity.z, 0);
}

#[test]
fn movement_with_zero_input_stops_and_keeps_facing() {
    let p = Player::default();
    let camera = axis_camera();
    let mut position = Vec3 { x: 0, y: 0, z: 0 };
    let mut velocity = Vec3 { x: 4000, y: -300, z: 4000 };
    let out = movement_update(&p, &mut position, &mut velocity, Vec2 { x: 0, y: 0 }, &camera);
    assert_eq!(velocity, Vec3 { x: 0, y: -300, z: 0 });
    assert_eq!(out.look_target, None);
    assert_eq!(out.target, position);
}

#[test]
fn movement_while_dashing_leaves_velocity_to_physics() {
    let p = Player {
        is_dashing: true,
        last_dash_time: 100,
        dash_count: 1,
        ..Player::default()
    };
    let camera = axis_camera();
    let mut position = Vec3 { x: 0, y: 0, z: 0 };
    let mut velocity = Vec3 { x: 123, y: 456, z: 789 };
    let out = movement_update(&p, &mut position, &mut velocity, Vec2 { x: 1000, y: 0 }, &camera);
    assert_eq!(velocity, Vec3 { x: 123, y: 456, z: 789 });
    assert_eq!(out.look_target, None);
    // the follow-target marker still moves
    assert_eq!(out.target, Vec3 { x: 2000, y: 0, z: 0 });
}

#[test]
fn fall_recovery_teleports_to_respawn() {
    let p = Player::default();
    let camera = axis_camera();
    // vertical position -25 is at or below the -20 threshold
    let mut position = Vec3 { x: 5000, y: -25_000, z: 7000 };
    let mut velocity = Vec3 { x: 0, y: 0, z: 0 };
    movement_update(&p, &mut position, &mut velocity, Vec2 { x: 1000, y: -1000 }, &camera);
    assert_eq!(position, Vec3 { x: 0, y: RESPAWN_HEIGHT, z: 0 });
}

#[test]
fn fall_recovery_ignores_positions_above_threshold() {
    let p = Player::default();
    let camera = axis_camera();
    let mut position = Vec3 { x: 5000, y: -19_999, z: 7000 };
    let mut velocity = Vec3 { x: 0, y: 0, z: 0 };
    movement_update(&p, &mut position, &mut velocity, Vec2 { x: 0, y: 0 }, &camera);
    assert_eq!(position, Vec3 { x: 5000, y: -19_999, z: 7000 });
}

#[test]
fn animation_prefers_jump_then_run_then_idle() {
    let jumping = Player {
        is_jumping: true,
        jumps_without_ground: 1,
        ..Player::default()
    };
    let cmd = select_animation(&jumping, &Vec3 { x: 0, y: 0, z: 0 });
    assert_eq!(cmd.clip, AnimationClip::Jump);
    assert!(!cmd.looping);

    let idle = Player::default();
    let cmd = select_animation(&idle, &Vec3 { x: 0, y: -900, z: 0 });
    assert_eq!(cmd.clip, AnimationClip::Idle);
    assert!(cmd.looping);

    let cmd = select_animation(&idle, &Vec3 { x: 0, y: 0, z: 100 });
    assert_eq!(cmd.clip, AnimationClip::Run);
    assert!(cmd.looping);
}

#[test]
fn mul_milli_scales_fixed_point_products() {
    assert_eq!(mul_milli(1000, 10_000), 10_000);
    assert_eq!(mul_milli(-1000, 10_000), -10_000);
    assert_eq!(mul_milli(500, 500), 250);
    assert_eq!(mul_milli(-1, 999), 0);
    assert_eq!(mul_milli(0, 123_456), 0);
}

#[test]
fn tick_lands_and_honors_jump_in_the_same_tick() {
    let mut ch = Character::new(Vec3 { x: 0, y: 1000, z: 0 });
    ch.player = airborne_player();
    ch.velocity = Vec3 { x: 0, y: -4000, z: 0 };
    let camera = axis_camera();
    let inputs = Inputs {
        player_movement: Vec2 { x: 1000, y: 0 },
        jump_triggered: true,
        ..Inputs::default()
    };
    let back = Vec3 { x: 0, y: 0, z: -1000 };
    let out = tick(&mut ch, &inputs, &camera, back, true, 5000);
    // the probe ran first (clearing the air state), so the jump was honored
    assert!(ch.player.is_grounded);
    assert!(ch.player.is_jumping);
    assert_eq!(ch.player.jumps_without_ground, 1);
    assert_eq!(ch.velocity, Vec3 { x: 10_000, y: JUMP_SPEED, z: 0 });
    assert_eq!(out.animation.clip, AnimationClip::Jump);
    assert!(!out.animation.looping);
}

#[test]
fn tick_dash_keeps_movement_hands_off_velocity() {
    let mut ch = Character::new(Vec3 { x: 0, y: 1000, z: 0 });
    ch.velocity = Vec3 { x: 77, y: 88, z: 99 };
    let camera = axis_camera();
    let inputs = Inputs {
        player_movement: Vec2 { x: 1000, y: 0 },
        dash_triggered: true,
        ..Inputs::default()
    };
    let back = Vec3 { x: 0, y: 0, z: -1000 };
    let out = tick(&mut ch, &inputs, &camera, back, true, 5000);
    // the movement stage saw this tick's dash state and left velocity alone
    assert!(ch.player.is_dashing);
    assert_eq!(ch.velocity, Vec3 { x: 77, y: 88, z: 99 });
    assert_eq!(ch.impulse, Vec3 { x: 0, y: 0, z: -DASH_IMPULSE });
    assert_eq!(out.look_target, None);
    // the follow-target marker still moved
    assert_eq!(out.target, Vec3 { x: 2000, y: 1000, z: 0 });
}

#[test]
fn tick_fall_recovery_overrides_other_inputs() {
    let mut ch = Character::new(Vec3 { x: 0, y: 0, z: 0 });
    ch.position = Vec3 { x: 1000, y: -25_000, z: 1000 };
    let camera = axis_camera();
    let inputs = Inputs {
        player_movement: Vec2 { x: -1000, y: 1000 },
        jump_triggered: true,
        dash_triggered: true,
        ..Inputs::default()
    };
    let back = Vec3 { x: 1000, y: 0, z: 0 };
    tick(&mut ch, &inputs, &camera, back, false, 123);
    assert_eq!(ch.position, Vec3 { x: 0, y: RESPAWN_HEIGHT, z: 0 });
}
