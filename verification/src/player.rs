//! The player controller: maps the per-tick input snapshot to velocity,
//! position and facing, emits shoot requests, and keeps the short-lived
//! "just fired" sprite state.

use vstd::prelude::*;

use crate::geom::{
    clamped, div_scale_toward_zero, COORD_LIMIT, MUZZLE_OFFSET, MUZZLE_RISE, OFF_TOP,
    PLAYER_LIMIT, PLAYER_SPEED, SCALE, SHOT_SPEED, SHOT_SPRITE_MS,
};
use crate::projectile::Projectile;

verus! {

/// The player's horizontal orientation.  Unlike the formation it can be
/// neutral: facing latches, so it only leaves neutral on movement or on an
/// edge-triggered turn.
#[derive(Clone, Copy, Debug, PartialEq, Eq, Structural)]
pub enum PlayerFacing {
    Left,
    Right,
    Neutral,
}

/// The held state of the three relevant keys on one tick.
#[derive(Clone, Copy, Debug, PartialEq, Eq, Structural)]
pub struct HeldKeys {
    pub left: bool,
    pub right: bool,
    pub fire: bool,
}

/// The per-tick input snapshot: held state plus the edge-triggered
/// "just pressed" flags, true only on the tick a key goes down.
#[derive(Clone, Copy, Debug, PartialEq, Eq, Structural)]
pub struct InputSnapshot {
    pub left_held: bool,
    pub right_held: bool,
    pub left_just_pressed: bool,
    pub right_just_pressed: bool,
    pub fire_just_pressed: bool,
}

impl InputSnapshot {
    /// A snapshot with nothing held and no edges.
    pub fn idle() -> (r: InputSnapshot)
        ensures
            r == (InputSnapshot {
                left_held: false,
                right_held: false,
                left_just_pressed: false,
                right_just_pressed: false,
                fire_just_pressed: false,
            }),
    {
        InputSnapshot {
            left_held: false,
            right_held: false,
            left_just_pressed: false,
            right_just_pressed: false,
            fire_just_pressed: false,
        }
    }

    /// Computes the edge flags once per tick from the previous and current
    /// held states: a key is "just pressed" exactly when it is down now
    /// and was up on the previous tick.
    pub fn from_transition(prev: HeldKeys, cur: HeldKeys) -> (r: InputSnapshot)
        ensures
            r.left_held == cur.left,
            r.right_held == cur.right,
            r.left_just_pressed == (cur.left && !prev.left),
            r.right_just_pressed == (cur.right && !prev.right),
            r.fire_just_pressed == (cur.fire && !prev.fire),
    {
        InputSnapshot {
            left_held: cur.left,
            right_held: cur.right,
            left_just_pressed: cur.left && !prev.left,
            right_just_pressed: cur.right && !prev.right,
            fire_just_pressed: cur.fire && !prev.fire,
        }
    }
}

/// The player ship: lateral position at a fixed height, current velocity,
/// latched facing, and the age of the last shot while it still drives the
/// "just fired" sprite state.
#[derive(Clone, Copy, Debug, PartialEq, Eq, Structural)]
pub struct Player {
    pub x: i64,
    pub y: i64,
    pub vx: i64,
    pub facing: PlayerFacing,
    pub shot_age_ms: Option<u32>,
}

/// The velocity the held keys ask for: one speed constant to the right,
/// minus one to the left.
pub open spec fn input_velocity(input: InputSnapshot) -> int {
    (if input.right_held {
        PLAYER_SPEED as int
    } else {
        0
    }) - (if input.left_held {
        PLAYER_SPEED as int
    } else {
        0
    })
}

/// The latched facing rule: nonzero velocity sets the facing to its sign;
/// at zero velocity an edge-triggered press (left checked first) turns
/// the player in place; otherwise the facing is kept.
pub open spec fn facing_after(
    prior: PlayerFacing,
    input: InputSnapshot,
    vx: int,
) -> PlayerFacing {
    if vx < 0 {
        PlayerFacing::Left
    } else if vx > 0 {
        PlayerFacing::Right
    } else if input.left_just_pressed {
        PlayerFacing::Left
    } else if input.right_just_pressed {
        PlayerFacing::Right
    } else {
        prior
    }
}

/// One movement tick: velocity from the held keys, position advanced and
/// clamped to the on-screen range, facing latched.
pub open spec fn moved_player(p: Player, input: InputSnapshot) -> Player {
    let vx = input_velocity(input);
    Player {
        x: clamped(p.x + vx, -(PLAYER_LIMIT as int), PLAYER_LIMIT as int) as i64,
        vx: vx as i64,
        facing: facing_after(p.facing, input, vx),
        ..p
    }
}

/// The shot-age state advanced by the elapsed time: it expires (and the
/// "just fired" sprite state with it) once it reaches the sprite duration.
pub open spec fn aged_player(p: Player, elapsed_ms: u32) -> Player {
    match p.shot_age_ms {
        None => p,
        Some(a) => if a + elapsed_ms >= SHOT_SPRITE_MS {
            Player { shot_age_ms: None, ..p }
        } else {
            Player { shot_age_ms: Some((a + elapsed_ms) as u32), ..p }
        },
    }
}

/// The muzzle offset a shot spawns at, signed by the facing; a neutral
/// player fires straight from its center.
pub open spec fn muzzle_shift(f: PlayerFacing) -> int {
    match f {
        PlayerFacing::Left => -(MUZZLE_OFFSET as int),
        PlayerFacing::Right => MUZZLE_OFFSET as int,
        PlayerFacing::Neutral => 0,
    }
}

/// The projectile a player in state `p` spawns: above the muzzle, rising
/// at the fixed shot speed, inheriting `drift_num` hundredths of the
/// player's current horizontal velocity.
pub open spec fn shot_from(p: Player, drift_num: int) -> Projectile {
    Projectile {
        x: (p.x + muzzle_shift(p.facing)) as i64,
        y: (p.y + MUZZLE_RISE) as i64,
        vx: div_scale_toward_zero(p.vx * drift_num) as i64,
        vy: SHOT_SPEED,
    }
}

/// The sprite-index hint for the player: 0/1 while the "just fired" state
/// lasts (left/right), 4/5 when idle, and the default idle frame 4 for a
/// neutral player.
pub open spec fn player_sprite(f: PlayerFacing, shooting: bool) -> u32 {
    match (f, shooting) {
        (PlayerFacing::Left, true) => 0u32,
        (PlayerFacing::Right, true) => 1u32,
        (PlayerFacing::Left, false) => 4u32,
        (PlayerFacing::Right, false) => 5u32,
        (PlayerFacing::Neutral, _) => 4u32,
    }
}

impl Player {
    /// Well-formedness: on-screen lateral position, a height below the
    /// off-top line, speed within the one speed constant, and a shot age
    /// strictly inside the sprite duration.
    pub open spec fn wf(&self) -> bool {
        &&& -PLAYER_LIMIT <= self.x <= PLAYER_LIMIT
        &&& -COORD_LIMIT <= self.y <= OFF_TOP
        &&& -PLAYER_SPEED <= self.vx <= PLAYER_SPEED
        &&& self.shot_age_ms matches Some(a) ==> a < SHOT_SPRITE_MS
    }

    /// A player at rest at lateral position `x`, facing left as at start.
    pub fn new(x: i64, y: i64) -> (p: Player)
        requires
            -PLAYER_LIMIT <= x <= PLAYER_LIMIT,
            -COORD_LIMIT <= y <= OFF_TOP,
        ensures
            p.wf(),
            p == (Player { x, y, vx: 0i64, facing: PlayerFacing::Left, shot_age_ms: None::<u32> }),
    {
        Player { x, y, vx: 0, facing: PlayerFacing::Left, shot_age_ms: None }
    }

    /// One movement tick, as [`moved_player`] describes.
    pub fn apply_input(&mut self, input: InputSnapshot)
        requires
            old(self).wf(),
        ensures
            final(self).wf(),
            *final(self) == moved_player(*old(self), input),
    {
        let vx: i64 = (if input.right_held {
            PLAYER_SPEED
        } else {
            0
        }) - (if input.left_held {
            PLAYER_SPEED
        } else {
            0
        });
        self.x = crate::geom::clamp_coord(self.x + vx, -PLAYER_LIMIT, PLAYER_LIMIT);
        self.vx = vx;
        if vx < 0 {
            self.facing = PlayerFacing::Left;
        } else if vx > 0 {
            self.facing = PlayerFacing::Right;
        } else if input.left_just_pressed {
            self.facing = PlayerFacing::Left;
        } else if input.right_just_pressed {
            self.facing = PlayerFacing::Right;
        }
    }

    /// Advances the "just fired" sprite state by the elapsed time, as
    /// [`aged_player`] describes.
    pub fn tick_shot_age(&mut self, elapsed_ms: u32)
        requires
            old(self).wf(),
        ensures
            final(self).wf(),
            *final(self) == aged_player(*old(self), elapsed_ms),
    {
        match self.shot_age_ms {
            None => (),
            Some(a) => {
                if elapsed_ms >= SHOT_SPRITE_MS - a {
                    self.shot_age_ms = None;
                } else {
                    self.shot_age_ms = Some(a + elapsed_ms);
                }
            },
        }
    }

    /// Fires on an edge-triggered fire event — unconditionally, there is
    /// no rate limiter — returning the spawned projectile and restarting
    /// the "just fired" sprite state.  Without the edge, a no-op.
    pub fn try_shoot(&mut self, fire_edge: bool, drift_num: i64) -> (shot: Option<Projectile>)
        requires
            old(self).wf(),
            0 <= drift_num <= SCALE,
        ensures
            final(self).wf(),
            fire_edge ==> {
                &&& shot == Some(shot_from(*old(self), drift_num as int))
                &&& shot_from(*old(self), drift_num as int).wf()
                &&& *final(self) == (Player { shot_age_ms: Some(0u32), ..*old(self) })
            },
            !fire_edge ==> shot is None && *final(self) == *old(self),
    {
        if !fire_edge {
            return None;
        }
        let sx: i64 = self.x + match self.facing {
            PlayerFacing::Left => -MUZZLE_OFFSET,
            PlayerFacing::Right => MUZZLE_OFFSET,
            PlayerFacing::Neutral => 0,
        };
        proof {
            assert(-40000 <= self.vx * drift_num <= 40000) by (nonlinear_arith)
                requires
                    -(PLAYER_SPEED as int) <= self.vx <= PLAYER_SPEED as int,
                    0 <= drift_num <= SCALE as int,
            ;
        }
        let shot = Projectile {
            x: sx,
            y: self.y + MUZZLE_RISE,
            vx: crate::geom::div_scale(self.vx * drift_num),
            vy: SHOT_SPEED,
        };
        self.shot_age_ms = Some(0);
        Some(shot)
    }

    /// The sprite-index hint for the host, as [`player_sprite`] describes;
    /// the player counts as shooting while the shot age is present.
    pub fn sprite_index(&self) -> (r: u32)
        ensures
            r == player_sprite(self.facing, self.shot_age_ms is Some),
    {
        match (self.facing, self.shot_age_ms) {
            (PlayerFacing::Left, Some(_)) => 0,
            (PlayerFacing::Right, Some(_)) => 1,
            (PlayerFacing::Left, None) => 4,
            (PlayerFacing::Right, None) => 5,
            (PlayerFacing::Neutral, _) => 4,
        }
    }
}

} // verus!
