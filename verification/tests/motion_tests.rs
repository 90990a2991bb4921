use invaders_core::formation::{Formation, MotionOutcome};
use invaders_core::grid::{Direction, FormationGrid};

fn single_enemy_formation(x: i64, vx: i64) -> Formation {
    // one enemy in column 0: both effective boundaries sit at the screen
    // edges offset by nothing (right) and by nothing (left column 0).
    let grid = FormationGrid::from_slots(vec![vec![Some(7)]]);
    Formation { grid, x, y: 0, vx, vy: 1200 }
}

#[test]
fn candidate_within_bound_commits() {
    // moving right at 2 units/tick from x = 598 with right boundary 600:
    // candidate 600 is within bound and is committed.
    let mut form = single_enemy_formation(59_800, 200);
    let out = form.step();
    assert_eq!(out, MotionOutcome::Moved);
    assert_eq!(form.x, 60_000);
    assert_eq!(form.vx, 200);
    assert_eq!(form.y, 0);
    assert_eq!(form.grid.facing, Direction::Right);
}

#[test]
fn candidate_beyond_bound_reverses_speeds_up_and_descends() {
    // at x = 600 with boundary 600: candidate 602 exceeds the bound, so
    // the speed becomes -2.6, y drops by the descent step, facing flips,
    // and the candidate is not committed.
    let mut form = single_enemy_formation(60_000, 200);
    let out = form.step();
    assert_eq!(out, MotionOutcome::Reversed);
    assert_eq!(form.x, 60_000);
    assert_eq!(form.vx, -260);
    assert_eq!(form.y, -1_200);
    assert_eq!(form.grid.facing, Direction::Left);
}

#[test]
fn fractional_speed_truncates_toward_zero() {
    // -2.6 units/tick steps the origin by exactly -2 whole units.
    let grid = FormationGrid::from_slots(vec![vec![Some(7)]]);
    let mut form = Formation { grid, x: 0, y: 0, vx: -260, vy: 1200 };
    form.grid.toggle_direction();
    let out = form.step();
    assert_eq!(out, MotionOutcome::Moved);
    assert_eq!(form.x, -200);
}

#[test]
fn empty_formation_is_terminal_and_idle() {
    let grid = FormationGrid::from_slots(vec![vec![None, None]]);
    let mut form = Formation { grid, x: 1234, y: -500, vx: 100, vy: 1200 };
    let out = form.step();
    assert_eq!(out, MotionOutcome::Idle);
    assert_eq!(form.x, 1234);
    assert_eq!(form.y, -500);
    assert_eq!(form.vx, 100);
}

#[test]
fn shrunken_formation_reverses_at_the_visual_edge() {
    // two columns, but only column 1 still lives: the first occupied
    // column offsets the right boundary to 600 + 60 = 660 units.
    let grid = FormationGrid::from_slots(vec![vec![None, Some(3)]]);
    let mut form = Formation { grid, x: 65_900, y: 0, vx: 100, vy: 1200 };
    let out = form.step();
    assert_eq!(out, MotionOutcome::Moved);
    assert_eq!(form.x, 66_000);
    let out2 = form.step();
    assert_eq!(out2, MotionOutcome::Reversed);
    assert_eq!(form.vx, -160);
}

#[test]
fn left_boundary_reverses_toward_the_right() {
    let grid = FormationGrid::from_slots(vec![vec![Some(7)]]);
    let mut form = Formation { grid, x: -60_000, y: 0, vx: -200, vy: 1200 };
    form.grid.toggle_direction();
    let out = form.step();
    assert_eq!(out, MotionOutcome::Reversed);
    assert_eq!(form.vx, 260);
    assert_eq!(form.y, -1_200);
    assert_eq!(form.grid.facing, Direction::Right);
}
