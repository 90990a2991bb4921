use invaders_core::grid::Direction;
use invaders_core::player::{InputSnapshot, PlayerFacing};
use invaders_core::projectile::Projectile;
use invaders_core::sim::{AnimTimer, Simulation};

fn full_slots(rows: usize, cols: usize) -> Vec<Vec<Option<u64>>> {
    let mut slots: Vec<Vec<Option<u64>>> = Vec::new();
    for r in 0..rows {
        let mut row: Vec<Option<u64>> = Vec::new();
        for c in 0..cols {
            row.push(Some((r * cols + c) as u64));
        }
        slots.push(row);
    }
    slots
}

#[test]
fn a_fresh_game_matches_the_documented_initial_state() {
    let sim = Simulation::new(full_slots(4, 7));
    assert_eq!(sim.formation.grid.count, 28);
    assert_eq!(sim.formation.grid.facing, Direction::Right);
    assert_eq!(sim.formation.x, 0);
    assert_eq!(sim.formation.y, 0);
    assert_eq!(sim.formation.vx, 100);
    assert_eq!(sim.formation.vy, 1_200);
    assert_eq!(sim.player.x, 0);
    assert_eq!(sim.player.y, -32_500);
    assert_eq!(sim.player.facing, PlayerFacing::Left);
    assert!(sim.projectiles.is_empty());
    assert_eq!(sim.drift_num, 8);
    assert_eq!(sim.anim_frame, 0);
}

#[test]
fn one_tick_moves_the_formation_by_its_whole_speed() {
    let mut sim = Simulation::new(full_slots(4, 7));
    sim.step(InputSnapshot::idle(), 16);
    // 1.0 units/tick: one whole unit committed.
    assert_eq!(sim.formation.x, 100);
    assert_eq!(sim.formation.grid.count, 28);
}

#[test]
fn a_fire_edge_spawns_one_projectile_that_advances_the_same_tick() {
    let mut sim = Simulation::new(full_slots(4, 7));
    let mut snap = InputSnapshot::idle();
    snap.fire_just_pressed = true;
    sim.step(snap, 16);
    assert_eq!(sim.projectiles.len(), 1);
    // spawned at the left muzzle of the idle player, then advanced once:
    // x = 0 - 26, y = -325 + 30 + 4 (units, in centiunits here).
    assert_eq!(sim.projectiles[0].x, -2_600);
    assert_eq!(sim.projectiles[0].y, -29_100);
    assert_eq!(sim.player.shot_age_ms, Some(0));
    // no second edge, no second shot
    sim.step(InputSnapshot::idle(), 16);
    assert_eq!(sim.projectiles.len(), 1);
}

#[test]
fn every_fire_edge_shoots_there_is_no_rate_limiter() {
    let mut sim = Simulation::new(full_slots(4, 7));
    let mut snap = InputSnapshot::idle();
    snap.fire_just_pressed = true;
    sim.step(snap, 1);
    sim.step(snap, 1);
    sim.step(snap, 1);
    assert_eq!(sim.projectiles.len(), 3);
}

#[test]
fn clearing_the_last_enemy_raises_the_win_signal_once() {
    // count 1: a projectile about to reach the enemy connects this tick
    // (the formation advances one unit before collisions are resolved),
    // the signal fires on that tick, and never on any later one.
    let mut sim = Simulation::new(vec![vec![Some(99)]]);
    sim.projectiles.push(Projectile { x: 100, y: 32_000, vx: 0, vy: 400 });
    let report = sim.step(InputSnapshot::idle(), 1);
    assert!(report.cleared);
    assert_eq!(report.removed.len(), 1);
    assert_eq!(report.removed[0].enemy, 99);
    assert_eq!(sim.formation.grid.count, 0);
    assert!(sim.projectiles.is_empty());
    for _ in 0..10 {
        let later = sim.step(InputSnapshot::idle(), 1);
        assert!(!later.cleared);
        assert!(later.removed.is_empty());
    }
}

#[test]
fn the_anim_timer_fires_every_period() {
    let mut t = AnimTimer { acc_ms: 0, period_ms: 200 };
    assert!(!t.tick(150));
    assert_eq!(t.acc_ms, 150);
    assert!(t.tick(60));
    assert_eq!(t.acc_ms, 10);
}

#[test]
fn enemy_sprites_cycle_and_offset_by_facing() {
    let mut sim = Simulation::new(full_slots(2, 2));
    assert_eq!(sim.enemy_sprite_index(), 0);
    sim.step(InputSnapshot::idle(), 200);
    assert_eq!(sim.anim_frame, 1);
    assert_eq!(sim.enemy_sprite_index(), 1);
    sim.formation.grid.toggle_direction();
    sim.formation.vx = -sim.formation.vx;
    assert_eq!(sim.enemy_sprite_index(), 5);
    for _ in 0..3 {
        sim.step(InputSnapshot::idle(), 200);
    }
    assert_eq!(sim.anim_frame, 0);
}

#[test]
fn enemy_positions_follow_the_formation_origin() {
    let mut sim = Simulation::new(full_slots(2, 3));
    assert_eq!(sim.enemy_position(0, 0), Some((0, 32_500)));
    assert_eq!(sim.enemy_position(1, 2), Some((-12_000, 28_500)));
    sim.step(InputSnapshot::idle(), 16);
    assert_eq!(sim.enemy_position(0, 0), Some((100, 32_500)));
    assert_eq!(sim.player_position(), (0, -32_500));
}

#[test]
fn the_drift_tunable_scales_inherited_velocity() {
    let mut sim = Simulation::new(full_slots(1, 1));
    sim.set_drift(50);
    let mut snap = InputSnapshot::idle();
    snap.right_held = true;
    snap.fire_just_pressed = true;
    sim.step(snap, 1);
    // half of the player's 4 units/tick, advanced one tick from spawn
    assert_eq!(sim.projectiles[0].vx, 200);
    assert_eq!(sim.projectiles[0].x, 400 + 2_600 + 200);
}
