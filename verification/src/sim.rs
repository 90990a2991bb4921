//! The simulation step: one owned object holding the formation, the
//! player and the projectiles, advanced once per rendered frame in a fixed
//! order — input resolution, player movement, player shooting, projectile
//! advance, formation advance, formation animation-state update, collision
//! resolution.  The fixed order keeps formation movement and formation
//! animation in the same tick, and makes the whole tick a function of the
//! previous state and the input snapshot.

use vstd::prelude::*;

use crate::collision::{resolve_model, HitRecord};
use crate::formation::{motion_model, Formation, FormView};
use crate::geom::{
    ANIM_PERIOD_MS, COORD_LIMIT, DESCENT_STEP, FORMATION_START_SPEED, PLAYER_Y, SCALE,
    SHOT_DRIFT_NUM,
};
use crate::grid::{grid_count, Direction, FormationGrid, MAX_DIM};
use crate::player::{aged_player, moved_player, shot_from, InputSnapshot, Player};
use crate::projectile::{advance_model, Projectile};

verus! {

/// A repeating animation timer: accumulated elapsed time against a fixed
/// period, firing once per tick in which the period is reached.
#[derive(Clone, Copy, Debug, PartialEq, Eq, Structural)]
pub struct AnimTimer {
    pub acc_ms: u32,
    pub period_ms: u32,
}

/// Whether the timer fires when `elapsed_ms` more have passed.
pub open spec fn timer_fires(t: AnimTimer, elapsed_ms: u32) -> bool {
    t.acc_ms + elapsed_ms >= t.period_ms
}

/// The timer advanced by `elapsed_ms`: the accumulator wraps at the period.
pub open spec fn ticked_timer(t: AnimTimer, elapsed_ms: u32) -> AnimTimer {
    AnimTimer { acc_ms: ((t.acc_ms + elapsed_ms) % (t.period_ms as int)) as u32, ..t }
}

impl AnimTimer {
    /// Well-formedness: a positive period with the accumulator inside it.
    pub open spec fn wf(&self) -> bool {
        &&& self.period_ms >= 1
        &&& self.acc_ms < self.period_ms
    }

    /// Advances the timer, reporting whether it fired this tick.
    pub fn tick(&mut self, elapsed_ms: u32) -> (fired: bool)
        requires
            old(self).wf(),
        ensures
            final(self).wf(),
            *final(self) == ticked_timer(*old(self), elapsed_ms),
            fired == timer_fires(*old(self), elapsed_ms),
    {
        let total: u64 = self.acc_ms as u64 + elapsed_ms as u64;
        let fired = total >= self.period_ms as u64;
        self.acc_ms = (total % (self.period_ms as u64)) as u32;
        fired
    }
}

/// What one tick reports back to the host, beyond the state it can read.
pub struct TickReport {
    /// The formation-cleared win signal: true exactly on the tick the live
    /// count went from positive to zero, and never afterwards.
    pub cleared: bool,
    /// The enemies destroyed this tick, in processing order, so the host
    /// can drop their renderable state.
    pub removed: Vec<HitRecord>,
}

/// The whole simulation: formation, player, projectiles, the projectile
/// drift tunable, and the enemy animation state.  Exclusively owned by the
/// caller and mutated only through [`Simulation::step`].
pub struct Simulation {
    pub formation: Formation,
    pub player: Player,
    pub projectiles: Vec<Projectile>,
    /// Hundredths of the player's horizontal velocity a spawned projectile
    /// inherits; a tunable.
    pub drift_num: i64,
    pub anim: AnimTimer,
    /// The current frame of the 4-frame enemy animation cycle.
    pub anim_frame: u32,
}

impl Simulation {
    /// Well-formedness of every component.
    pub open spec fn wf(&self) -> bool {
        &&& self.formation.wf()
        &&& self.player.wf()
        &&& forall|i: int|
            0 <= i < self.projectiles@.len() ==> (#[trigger] self.projectiles@[i]).wf()
        &&& 0 <= self.drift_num <= SCALE
        &&& self.anim.wf()
        &&& self.anim_frame < 4
    }

    /// A fresh game: the given enemy layout centered at the origin and
    /// moving right at the start speed, the player at rest at the bottom
    /// center facing left, no projectiles, and the animation at frame
    /// zero.  The single player exists from here on: it is part of the
    /// state, never rediscovered.
    pub fn new(slots: Vec<Vec<Option<u64>>>) -> (sim: Simulation)
        requires
            slots@.len() >= 1,
            slots@.len() <= MAX_DIM,
            slots@[0]@.len() <= MAX_DIM,
            forall|r: int|
                0 <= r < slots@.len() ==> (#[trigger] slots@[r])@.len() == slots@[0]@.len(),
        ensures
            sim.wf(),
            sim.formation.grid.view() == Seq::new(slots@.len() as nat, |i: int| slots@[i]@),
            sim.formation.grid.facing == Direction::Right,
            sim.formation.x == 0 && sim.formation.y == 0,
            sim.formation.vx == FORMATION_START_SPEED,
            sim.formation.vy == DESCENT_STEP,
            sim.player == (Player {
                x: 0i64,
                y: PLAYER_Y,
                vx: 0i64,
                facing: crate::player::PlayerFacing::Left,
                shot_age_ms: None::<u32>,
            }),
            sim.projectiles@ == Seq::<Projectile>::empty(),
            sim.drift_num == SHOT_DRIFT_NUM,
            sim.anim == (AnimTimer { acc_ms: 0u32, period_ms: ANIM_PERIOD_MS }),
            sim.anim_frame == 0,
    {
        let grid = FormationGrid::from_slots(slots);
        let formation = Formation {
            grid,
            x: 0,
            y: 0,
            vx: FORMATION_START_SPEED,
            vy: DESCENT_STEP,
        };
        Simulation {
            formation,
            player: Player::new(0, PLAYER_Y),
            projectiles: Vec::new(),
            drift_num: SHOT_DRIFT_NUM,
            anim: AnimTimer { acc_ms: 0, period_ms: ANIM_PERIOD_MS },
            anim_frame: 0,
        }
    }

    /// Reconfigures the projectile drift tunable.
    pub fn set_drift(&mut self, drift_num: i64)
        requires
            old(self).wf(),
            0 <= drift_num <= SCALE,
        ensures
            final(self).wf(),
            *final(self) == (Simulation { drift_num, ..*old(self) }),
    {
        self.drift_num = drift_num;
    }

    /// One frame of simulation, in the fixed order: the "just fired"
    /// sprite state ages, the player moves, a fire edge spawns a
    /// projectile, projectiles advance and retire, the formation advances,
    /// the animation timer ticks, and collisions are resolved.  The
    /// contract chains the per-phase models; an already-cleared formation
    /// stays cleared and never raises the win signal again.
    pub fn step(&mut self, input: InputSnapshot, elapsed_ms: u32) -> (report: TickReport)
        requires
            old(self).wf(),
        ensures
            final(self).wf(),
            ({
                let p_aged = aged_player(old(self).player, elapsed_ms);
                let p_moved = moved_player(p_aged, input);
                let ps_spawned = if input.fire_just_pressed {
                    old(self).projectiles@ + seq![shot_from(p_moved, old(self).drift_num as int)]
                } else {
                    old(self).projectiles@
                };
                let ps_flown = advance_model(ps_spawned);
                let fv = motion_model(old(self).formation.view());
                let m = resolve_model(fv.slots, fv.x, fv.y, ps_flown);
                &&& final(self).player == (if input.fire_just_pressed {
                    Player { shot_age_ms: Some(0u32), ..p_moved }
                } else {
                    p_moved
                })
                &&& final(self).projectiles@ == m.kept
                &&& final(self).formation.view() == (FormView { slots: m.slots, ..fv })
                &&& report.removed@ == m.removed
                &&& report.cleared == (grid_count(fv.slots) > 0 && grid_count(m.slots) == 0)
            }),
            final(self).drift_num == old(self).drift_num,
            final(self).anim == ticked_timer(old(self).anim, elapsed_ms),
            final(self).anim_frame == (if timer_fires(old(self).anim, elapsed_ms) {
                (old(self).anim_frame + 1) % 4
            } else {
                old(self).anim_frame as int
            }),
            grid_count(old(self).formation.view().slots) == 0 ==> !report.cleared && grid_count(
                final(self).formation.view().slots,
            ) == 0 && final(self).formation.view().slots == old(self).formation.view().slots,
    {
        let ghost p_aged = aged_player(old(self).player, elapsed_ms);
        let ghost p_moved = moved_player(p_aged, input);
        self.player.tick_shot_age(elapsed_ms);
        proof {
            assert(self.player == p_aged);
        }
        self.player.apply_input(input);
        proof {
            assert(self.player == p_moved);
        }
        let shot = self.player.try_shoot(input.fire_just_pressed, self.drift_num);
        match shot {
            Some(s) => self.projectiles.push(s),
            None => (),
        }
        let ghost ps_spawned = if input.fire_just_pressed {
            old(self).projectiles@ + seq![shot_from(p_moved, old(self).drift_num as int)]
        } else {
            old(self).projectiles@
        };
        proof {
            assert(self.projectiles@ == ps_spawned);
        }
        crate::projectile::advance_projectiles(&mut self.projectiles);
        proof {
            assert(self.projectiles@ == advance_model(ps_spawned));
        }
        let _motion = self.formation.step();
        let ghost fv = motion_model(old(self).formation.view());
        proof {
            assert(self.formation.view() == fv);
            assert(self.formation.grid.view() == fv.slots);
            assert(self.formation.x as int == fv.x);
            assert(self.formation.y as int == fv.y);
        }
        let anim_fired = self.anim.tick(elapsed_ms);
        if anim_fired {
            self.anim_frame = (self.anim_frame + 1) % 4;
        }
        proof {
            if grid_count(old(self).formation.view().slots) == 0 {
                crate::collision::lemma_cleared_terminal(
                    self.formation.grid.view(),
                    self.formation.x as int,
                    self.formation.y as int,
                    self.projectiles@,
                );
            }
        }
        let resolved = crate::collision::resolve_collisions(
            &mut self.formation,
            &mut self.projectiles,
        );
        TickReport { cleared: resolved.cleared, removed: resolved.removed }
    }

    /// The player's position, for the host's renderer.
    pub fn player_position(&self) -> (r: (i64, i64))
        ensures
            r == (self.player.x, self.player.y),
    {
        (self.player.x, self.player.y)
    }

    /// The world position of the enemy in slot `(r, c)`, or `None` for an
    /// empty slot: columns extend leftward from the formation origin, rows
    /// downward from the top offset.
    pub fn enemy_position(&self, r: usize, c: usize) -> (res: Option<(i64, i64)>)
        requires
            self.wf(),
            r < self.formation.grid.rows,
            c < self.formation.grid.cols,
        ensures
            self.formation.grid.view()[r as int][c as int] is Some <==> res is Some,
            res matches Some(pos) ==> {
                &&& pos.0 == crate::collision::enemy_slot_x(self.formation.x as int, c as int)
                &&& pos.1 == crate::collision::enemy_slot_y(self.formation.y as int, r as int)
            },
    {
        match self.formation.grid.slot(r, c) {
            Some(_) => {
                let ex: i64 = self.formation.x - (c as i64) * crate::geom::COLUMN_SPACING;
                let ey: i64 = self.formation.y + crate::geom::ENEMY_TOP_OFFSET - (r as i64)
                    * crate::geom::ROW_SPACING;
                Some((ex, ey))
            },
            None => None,
        }
    }

    /// The sprite-index hint for every live enemy this tick: the current
    /// frame of the 4-frame cycle, offset by +4 while the formation faces
    /// left.
    pub fn enemy_sprite_index(&self) -> (r: u32)
        requires
            self.wf(),
        ensures
            r == self.anim_frame + (if self.formation.grid.facing == Direction::Left {
                4u32
            } else {
                0u32
            }),
    {
        match self.formation.grid.facing {
            Direction::Left => self.anim_frame + 4,
            Direction::Right => self.anim_frame,
        }
    }
}

} // verus!
