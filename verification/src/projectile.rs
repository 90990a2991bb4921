//! Projectiles: spawned by the player, advanced each tick, retired when
//! they leave the visible vertical range or hit an enemy.

use vstd::prelude::*;

use crate::geom::{clamped, COORD_LIMIT, OFF_TOP, STEP_LIMIT};

verus! {

/// A projectile in flight.  Position and velocity are in centiunits; the
/// velocity is fixed at spawn.  The owner is always the player here, so no
/// owner field is kept.
#[derive(Clone, Copy, Debug, PartialEq, Eq, Structural)]
pub struct Projectile {
    pub x: i64,
    pub y: i64,
    pub vx: i64,
    pub vy: i64,
}

impl Projectile {
    /// Well-formedness: coordinates within the limit (the vertical one may
    /// overshoot the retirement line by at most one speed step, which is
    /// where a projectile is on the tick it gets retired), a bounded
    /// lateral drift, and a strictly upward speed — projectiles only ever
    /// travel up, so only the off-top line can retire them.
    pub open spec fn wf(&self) -> bool {
        &&& -COORD_LIMIT <= self.x <= COORD_LIMIT
        &&& -COORD_LIMIT <= self.y <= OFF_TOP + STEP_LIMIT
        &&& -STEP_LIMIT <= self.vx <= STEP_LIMIT
        &&& 1 <= self.vy <= STEP_LIMIT
    }
}

/// One tick of flight: the position advanced by the velocity, the lateral
/// coordinate clamped at the coordinate limit.
pub open spec fn flown(p: Projectile) -> Projectile {
    Projectile {
        x: clamped(p.x + p.vx, -(COORD_LIMIT as int), COORD_LIMIT as int) as i64,
        y: (p.y + p.vy) as i64,
        ..p
    }
}

/// One tick of the whole projectile set, in order: a projectile already
/// above the off-top line is retired (checked before it moves); every
/// other one advances by its velocity.
pub open spec fn advance_model(ps: Seq<Projectile>) -> Seq<Projectile>
    decreases ps.len(),
{
    if ps.len() == 0 {
        Seq::empty()
    } else {
        advance_model(ps.drop_last()) + (if ps.last().y > OFF_TOP {
            Seq::empty()
        } else {
            seq![flown(ps.last())]
        })
    }
}

/// Advances every projectile one tick and retires the off-screen ones, as
/// [`advance_model`] describes.
pub fn advance_projectiles(ps: &mut Vec<Projectile>)
    requires
        forall|i: int| 0 <= i < old(ps)@.len() ==> (#[trigger] old(ps)@[i]).wf(),
    ensures
        final(ps)@ == advance_model(old(ps)@),
        forall|i: int| 0 <= i < final(ps)@.len() ==> (#[trigger] final(ps)@[i]).wf(),
{
    let mut out: Vec<Projectile> = Vec::new();
    let n = ps.len();
    let mut i: usize = 0;
    while i < n
        invariant
            n == ps@.len(),
            i <= n,
            forall|j: int| 0 <= j < n ==> (#[trigger] ps@[j]).wf(),
            out@ == advance_model(ps@.take(i as int)),
            forall|j: int| 0 <= j < out@.len() ==> (#[trigger] out@[j]).wf(),
        decreases n - i,
    {
        proof {
            assert(ps@.take(i as int + 1).drop_last() =~= ps@.take(i as int));
            assert(ps@.take(i as int + 1).last() == ps@[i as int]);
        }
        let p = ps[i];
        if p.y <= OFF_TOP {
            let moved_p = Projectile {
                x: crate::geom::clamp_coord(p.x + p.vx, -COORD_LIMIT, COORD_LIMIT),
                y: p.y + p.vy,
                vx: p.vx,
                vy: p.vy,
            };
            out.push(moved_p);
        }
        proof {
            if ps@[i as int].y > OFF_TOP {
                assert(out@ =~= advance_model(ps@.take(i as int + 1)));
            } else {
                assert(out@ =~= advance_model(ps@.take(i as int + 1)));
            }
        }
        i = i + 1;
    }
    proof {
        assert(ps@.take(n as int) =~= ps@);
    }
    *ps = out;
}

} // verus!
