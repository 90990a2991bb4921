use invaders_core::grid::{Direction, FormationGrid, SimFault};

fn full_grid(rows: usize, cols: usize) -> FormationGrid {
    let mut slots: Vec<Vec<Option<u64>>> = Vec::new();
    for r in 0..rows {
        let mut row: Vec<Option<u64>> = Vec::new();
        for c in 0..cols {
            row.push(Some((r * cols + c) as u64));
        }
        slots.push(row);
    }
    FormationGrid::from_slots(slots)
}

fn occupied_slots(grid: &FormationGrid) -> usize {
    let mut n = 0;
    for row in grid.slots.iter() {
        for slot in row.iter() {
            if slot.is_some() {
                n += 1;
            }
        }
    }
    n
}

#[test]
fn count_matches_occupied_slots_after_every_remove() {
    let mut grid = full_grid(4, 7);
    assert_eq!(grid.count, 28);
    assert_eq!(grid.count, occupied_slots(&grid));
    for (r, c) in [(0usize, 0usize), (3, 6), (2, 2), (1, 5)] {
        grid.remove(r, c).unwrap();
        assert_eq!(grid.count, occupied_slots(&grid));
    }
    assert_eq!(grid.count, 24);
}

#[test]
fn remove_decrements_by_one_and_empties_the_slot() {
    let mut grid = full_grid(4, 7);
    assert!(grid.slots[1][3].is_some());
    let removed = grid.remove(1, 3);
    assert_eq!(removed, Ok(1 * 7 + 3));
    assert!(grid.slots[1][3].is_none());
    assert_eq!(grid.count, 27);
}

#[test]
fn double_remove_is_a_rejected_logic_fault_not_a_silent_success() {
    let mut grid = full_grid(2, 2);
    assert_eq!(grid.remove(0, 1), Ok(1));
    assert_eq!(grid.remove(0, 1), Err(SimFault::RemoveFromEmpty));
    // the failed call changed nothing
    assert_eq!(grid.count, 3);
    assert_eq!(grid.count, occupied_slots(&grid));
}

#[test]
fn column_bounds_of_grid_occupied_only_in_columns_two_to_four() {
    let mut slots: Vec<Vec<Option<u64>>> = Vec::new();
    for r in 0..3usize {
        let mut row: Vec<Option<u64>> = Vec::new();
        for c in 0..7usize {
            if (2..=4).contains(&c) {
                row.push(Some((r * 7 + c) as u64));
            } else {
                row.push(None);
            }
        }
        slots.push(row);
    }
    let grid = FormationGrid::from_slots(slots);
    assert_eq!(grid.first_occupied_column(), Some(2));
    assert_eq!(grid.last_occupied_column(), Some(4));
}

#[test]
fn column_bounds_of_empty_grid_are_none() {
    let slots: Vec<Vec<Option<u64>>> = vec![vec![None; 5]; 3];
    let grid = FormationGrid::from_slots(slots);
    assert_eq!(grid.count, 0);
    assert_eq!(grid.first_occupied_column(), None);
    assert_eq!(grid.last_occupied_column(), None);
}

#[test]
fn toggle_direction_flips_facing_only() {
    let mut grid = full_grid(1, 1);
    assert_eq!(grid.facing, Direction::Right);
    grid.toggle_direction();
    assert_eq!(grid.facing, Direction::Left);
    grid.toggle_direction();
    assert_eq!(grid.facing, Direction::Right);
    assert_eq!(grid.count, 1);
}

#[test]
fn from_slots_counts_a_sparse_layout() {
    let slots: Vec<Vec<Option<u64>>> = vec![
        vec![Some(1), None, Some(2)],
        vec![None, None, None],
        vec![None, Some(3), None],
    ];
    let grid = FormationGrid::from_slots(slots);
    assert_eq!(grid.count, 3);
    assert_eq!(grid.rows, 3);
    assert_eq!(grid.cols, 3);
    assert_eq!(grid.first_occupied_column(), Some(0));
    assert_eq!(grid.last_occupied_column(), Some(2));
}
