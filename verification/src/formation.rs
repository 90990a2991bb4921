//! Formation motion: the enemy grid advances as a rigid body, reverses and
//! speeds up at the lateral boundaries, and descends one step at each
//! reversal.
//!
//! The boundary check is offset by how far the occupied region has shrunk
//! from either edge, so the remaining enemies still reverse at the visual
//! edge rather than where the full, unshrunk grid would have.

use vstd::prelude::*;

use crate::geom::{
    clamped, div_scale_toward_zero, COLUMN_SPACING, COORD_LIMIT, SCALE, SCREEN_HALF_WIDTH,
    SPEED_CAP, SPEED_STEP, STEP_LIMIT,
};
use crate::grid::{
    cols_of, first_occupied, flipped, grid_count, last_occupied, Direction, FormationGrid,
};

verus! {

/// A mathematical snapshot of a formation: its slots, facing, position and
/// velocity, free of any machine-integer packaging.
pub ghost struct FormView {
    pub slots: Seq<Seq<Option<u64>>>,
    pub facing: Direction,
    pub x: int,
    pub y: int,
    pub vx: int,
    pub vy: int,
}

/// The enemy formation: the slot grid together with the position of the
/// formation origin and its velocity.  `vx` is the signed horizontal speed
/// (sign matching the grid's facing); `vy` is the descent step taken at
/// each reversal.  All in centiunits.
pub struct Formation {
    pub grid: FormationGrid,
    pub x: i64,
    pub y: i64,
    pub vx: i64,
    pub vy: i64,
}

/// The candidate next origin: the current one advanced by the whole-unit
/// part of the horizontal speed (truncation toward zero, matching
/// integer-pixel stepping).
pub open spec fn candidate_x(x: int, vx: int) -> int {
    x + div_scale_toward_zero(vx) * (SCALE as int)
}

/// The effective right boundary, pushed right by every fully empty column
/// on the formation's right edge (low column indices sit rightmost).
pub open spec fn right_bound(first_col: int) -> int {
    SCREEN_HALF_WIDTH + first_col * (COLUMN_SPACING as int)
}

/// The effective left boundary, pulled right by every fully empty column
/// on the formation's left edge.
pub open spec fn left_bound(last_col: int) -> int {
    -(SCREEN_HALF_WIDTH as int) + last_col * (COLUMN_SPACING as int)
}

/// The horizontal speed after a reversal: the magnitude grows by
/// [`SPEED_STEP`] (saturating at [`SPEED_CAP`]) and the sign flips.
pub open spec fn reversed_vx(vx: int) -> int {
    let mag = if vx >= 0 {
        vx
    } else {
        -vx
    };
    let grown = if mag + SPEED_STEP <= SPEED_CAP {
        mag + SPEED_STEP
    } else {
        SPEED_CAP as int
    };
    if vx >= 0 {
        -grown
    } else {
        grown
    }
}

/// Whether the candidate next origin crosses either effective boundary.
/// Defined only for a formation whose column bounds exist.
pub open spec fn crosses_boundary(v: FormView) -> bool {
    ||| (first_occupied(v.slots) matches Some(f) && candidate_x(v.x, v.vx) > right_bound(f))
    ||| (last_occupied(v.slots) matches Some(l) && candidate_x(v.x, v.vx) < left_bound(l))
}

/// One motion tick.  An empty formation is terminal and does not move.  A
/// boundary crossing reverses and speeds up the horizontal speed, descends
/// one step (clamped at the coordinate limit) and flips the facing, without
/// committing the candidate position; otherwise the candidate is committed.
pub open spec fn motion_model(v: FormView) -> FormView {
    if grid_count(v.slots) == 0 {
        v
    } else if first_occupied(v.slots) is Some && last_occupied(v.slots) is Some {
        if crosses_boundary(v) {
            FormView {
                vx: reversed_vx(v.vx),
                y: clamped(v.y - v.vy, -(COORD_LIMIT as int), COORD_LIMIT as int),
                facing: flipped(v.facing),
                ..v
            }
        } else {
            FormView { x: candidate_x(v.x, v.vx), ..v }
        }
    } else {
        v
    }
}

/// What one motion tick did.
#[derive(Clone, Copy, Debug, PartialEq, Eq, Structural)]
pub enum MotionOutcome {
    /// The formation is empty: terminal, nothing moved.
    Idle,
    /// The candidate position was committed.
    Moved,
    /// A boundary was crossed: speed reversed and grown, one descent step,
    /// facing flipped.
    Reversed,
    /// A non-empty formation whose column bounds could not be found: an
    /// internal-consistency fault.  Never produced by a well-formed
    /// formation, as the contract of [`Formation::step`] states.
    Fault,
}

impl Formation {
    /// The formation as a mathematical snapshot.
    pub open spec fn view(&self) -> FormView {
        FormView {
            slots: self.grid.view(),
            facing: self.grid.facing,
            x: self.x as int,
            y: self.y as int,
            vx: self.vx as int,
            vy: self.vy as int,
        }
    }

    /// Well-formedness: the grid is well formed, the position is within the
    /// coordinate limit, the horizontal speed is nonzero with its sign
    /// matching the facing and its magnitude capped, and the descent step
    /// is a bounded non-negative amount.
    pub open spec fn wf(&self) -> bool {
        &&& self.grid.wf()
        &&& -COORD_LIMIT <= self.x <= COORD_LIMIT
        &&& -COORD_LIMIT <= self.y <= COORD_LIMIT
        &&& -SPEED_CAP <= self.vx <= SPEED_CAP
        &&& self.vx != 0
        &&& (self.vx > 0 <==> self.grid.facing == Direction::Right)
        &&& 0 <= self.vy <= STEP_LIMIT
    }

    /// One motion tick, as [`motion_model`] describes.  A well-formed
    /// formation never produces [`MotionOutcome::Fault`]: a positive count
    /// guarantees the column bounds exist.
    pub fn step(&mut self) -> (out: MotionOutcome)
        requires
            old(self).wf(),
        ensures
            final(self).wf(),
            final(self).view() == motion_model(old(self).view()),
            !(out is Fault),
            out is Idle <==> grid_count(old(self).view().slots) == 0,
            out is Reversed <==> grid_count(old(self).view().slots) != 0 && crosses_boundary(
                old(self).view(),
            ),
    {
        if self.grid.count == 0 {
            return MotionOutcome::Idle;
        }
        proof {
            crate::grid::lemma_count_pos_bounds_exist(self.grid.view());
        }
        let first = self.grid.first_occupied_column();
        let last = self.grid.last_occupied_column();
        match (first, last) {
            (Some(f), Some(l)) => {
                proof {
                    assert(self.grid.view().len() > 0);
                    assert(cols_of(self.grid.view()) == self.grid.cols);
                    crate::grid::lemma_first_occ_props(self.grid.view(), 0);
                    crate::grid::lemma_last_occ_props(
                        self.grid.view(),
                        cols_of(self.grid.view()) - 1,
                    );
                }
                let cand = self.x + crate::geom::div_scale(self.vx) * SCALE;
                let rb = SCREEN_HALF_WIDTH + (f as i64) * COLUMN_SPACING;
                let lb = -SCREEN_HALF_WIDTH + (l as i64) * COLUMN_SPACING;
                if cand > rb || cand < lb {
                    let mag = if self.vx >= 0 {
                        self.vx
                    } else {
                        -self.vx
                    };
                    let grown = if mag + SPEED_STEP <= SPEED_CAP {
                        mag + SPEED_STEP
                    } else {
                        SPEED_CAP
                    };
                    self.vx = if self.vx >= 0 {
                        -grown
                    } else {
                        grown
                    };
                    self.y = crate::geom::clamp_coord(self.y - self.vy, -COORD_LIMIT, COORD_LIMIT);
                    self.grid.toggle_direction();
                    MotionOutcome::Reversed
                } else {
                    self.x = cand;
                    MotionOutcome::Moved
                }
            },
            _ => {
                proof {
                    assert(false);
                }
                MotionOutcome::Fault
            },
        }
    }
}

} // verus!
