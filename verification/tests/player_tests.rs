use invaders_core::player::{HeldKeys, InputSnapshot, Player, PlayerFacing};

fn held(left: bool, right: bool, fire: bool) -> HeldKeys {
    HeldKeys { left, right, fire }
}

#[test]
fn edges_come_from_the_previous_and_current_held_states() {
    let prev = held(false, true, false);
    let cur = held(true, true, true);
    let snap = InputSnapshot::from_transition(prev, cur);
    assert!(snap.left_held);
    assert!(snap.right_held);
    assert!(snap.left_just_pressed);
    assert!(!snap.right_just_pressed);
    assert!(snap.fire_just_pressed);
}

#[test]
fn velocity_is_one_speed_constant_per_held_direction() {
    let mut p = Player::new(0, -32_500);
    let mut snap = InputSnapshot::idle();
    snap.right_held = true;
    p.apply_input(snap);
    assert_eq!(p.vx, 400);
    assert_eq!(p.x, 400);
    let mut both = InputSnapshot::idle();
    both.left_held = true;
    both.right_held = true;
    p.apply_input(both);
    assert_eq!(p.vx, 0);
    assert_eq!(p.x, 400);
}

#[test]
fn position_clamps_at_the_screen_limits() {
    let mut p = Player::new(54_900, -32_500);
    let mut snap = InputSnapshot::idle();
    snap.right_held = true;
    p.apply_input(snap);
    assert_eq!(p.x, 55_000);
    p.apply_input(snap);
    assert_eq!(p.x, 55_000);
}

#[test]
fn facing_latches_at_zero_velocity() {
    // velocity 0, prior facing left, no edge: facing stays left.
    let mut p = Player::new(0, -32_500);
    assert_eq!(p.facing, PlayerFacing::Left);
    p.apply_input(InputSnapshot::idle());
    assert_eq!(p.vx, 0);
    assert_eq!(p.facing, PlayerFacing::Left);
}

#[test]
fn just_pressed_edge_turns_in_place_without_moving() {
    // a "just pressed right" edge with velocity still 0 flips the facing
    // to the right and leaves the position alone.
    let mut p = Player::new(0, -32_500);
    let mut snap = InputSnapshot::idle();
    snap.right_just_pressed = true;
    p.apply_input(snap);
    assert_eq!(p.vx, 0);
    assert_eq!(p.x, 0);
    assert_eq!(p.facing, PlayerFacing::Right);
}

#[test]
fn moving_sets_facing_to_the_sign_of_velocity() {
    let mut p = Player::new(0, -32_500);
    let mut snap = InputSnapshot::idle();
    snap.right_held = true;
    p.apply_input(snap);
    assert_eq!(p.facing, PlayerFacing::Right);
    let mut snap2 = InputSnapshot::idle();
    snap2.left_held = true;
    p.apply_input(snap2);
    assert_eq!(p.facing, PlayerFacing::Left);
}

#[test]
fn shot_spawns_at_the_muzzle_with_inherited_drift() {
    let mut p = Player::new(1_000, -32_500);
    let mut snap = InputSnapshot::idle();
    snap.right_held = true;
    p.apply_input(snap);
    let shot = p.try_shoot(true, 8).unwrap();
    // facing right: muzzle +26 units; rise +30 units; drift 8% of 400.
    assert_eq!(shot.x, 1_400 + 2_600);
    assert_eq!(shot.y, -32_500 + 3_000);
    assert_eq!(shot.vx, 32);
    assert_eq!(shot.vy, 400);
    assert_eq!(p.shot_age_ms, Some(0));
}

#[test]
fn shot_from_a_left_facing_player_leaves_from_the_left_muzzle() {
    let mut p = Player::new(0, -32_500);
    let shot = p.try_shoot(true, 8).unwrap();
    assert_eq!(shot.x, -2_600);
    assert_eq!(shot.vx, 0);
}

#[test]
fn no_fire_edge_means_no_shot() {
    let mut p = Player::new(0, -32_500);
    assert!(p.try_shoot(false, 8).is_none());
    assert_eq!(p.shot_age_ms, None);
}

#[test]
fn shot_age_expires_after_the_sprite_duration() {
    let mut p = Player::new(0, -32_500);
    p.try_shoot(true, 8);
    p.tick_shot_age(40);
    assert_eq!(p.shot_age_ms, Some(40));
    p.tick_shot_age(59);
    assert_eq!(p.shot_age_ms, Some(99));
    p.tick_shot_age(1);
    assert_eq!(p.shot_age_ms, None);
}

#[test]
fn sprite_index_follows_facing_and_shot_state() {
    let mut p = Player::new(0, -32_500);
    assert_eq!(p.sprite_index(), 4); // left, idle
    p.try_shoot(true, 8);
    assert_eq!(p.sprite_index(), 0); // left, just fired
    let mut snap = InputSnapshot::idle();
    snap.right_held = true;
    p.apply_input(snap);
    assert_eq!(p.sprite_index(), 1); // right, just fired
    p.tick_shot_age(100);
    assert_eq!(p.sprite_index(), 5); // right, idle
}

#[test]
fn position_clamps_at_the_left_screen_limit_too() {
    let mut p = Player::new(-54_900, -32_500);
    let mut snap = InputSnapshot::idle();
    snap.left_held = true;
    p.apply_input(snap);
    assert_eq!(p.x, -55_000);
    assert_eq!(p.facing, PlayerFacing::Left);
}
