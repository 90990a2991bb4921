//! Collision resolution: every live projectile is tested against the
//! occupied grid slots with an axis-aligned bounding-box test; the first
//! matching slot in row-major order (top row first, then column ascending)
//! is removed, the projectile retires, and at most one enemy falls to one
//! projectile per tick.  The "formation cleared" win signal is raised
//! exactly on the tick the count reaches zero.

use vstd::prelude::*;

use crate::formation::Formation;
use crate::geom::{
    COLUMN_SPACING, COORD_LIMIT, ENEMY_HALF_HEIGHT, ENEMY_HALF_WIDTH, ENEMY_TOP_OFFSET,
    ROW_SPACING,
};
use crate::grid::{cell_cleared, grid_count, FormationGrid};
use crate::projectile::Projectile;

verus! {

/// The world-space lateral position of the slot in column `c` of a
/// formation whose origin sits at `fx`: columns extend leftward.
pub open spec fn enemy_slot_x(fx: int, c: int) -> int {
    fx - c * (COLUMN_SPACING as int)
}

/// The world-space vertical position of the slot in row `r` of a formation
/// whose origin sits at `fy`: rows extend downward from the top offset.
pub open spec fn enemy_slot_y(fy: int, r: int) -> int {
    fy + ENEMY_TOP_OFFSET - r * (ROW_SPACING as int)
}

/// The axis-aligned bounding-box test: a projectile at `(px, py)` overlaps
/// an enemy at `(ex, ey)` iff both coordinate distances are strictly
/// inside the enemy's half-extents.
pub open spec fn overlaps(px: int, py: int, ex: int, ey: int) -> bool {
    &&& -(ENEMY_HALF_WIDTH as int) < px - ex < ENEMY_HALF_WIDTH as int
    &&& -(ENEMY_HALF_HEIGHT as int) < py - ey < ENEMY_HALF_HEIGHT as int
}

/// Whether projectile `p` hits slot `(r, c)`: the slot is occupied and the
/// bounding boxes overlap.
pub open spec fn hit_at(
    g: Seq<Seq<Option<u64>>>,
    fx: int,
    fy: int,
    p: Projectile,
    r: int,
    c: int,
) -> bool {
    &&& g[r][c] is Some
    &&& overlaps(p.x as int, p.y as int, enemy_slot_x(fx, c), enemy_slot_y(fy, r))
}

/// The first hit slot in row `r` at or after column `c`.
pub open spec fn first_hit_in_row(
    g: Seq<Seq<Option<u64>>>,
    fx: int,
    fy: int,
    p: Projectile,
    r: int,
    c: int,
) -> Option<int>
    decreases g[r].len() - c,
{
    if c < 0 || c >= g[r].len() {
        None
    } else if hit_at(g, fx, fy, p, r, c) {
        Some(c)
    } else {
        first_hit_in_row(g, fx, fy, p, r, c + 1)
    }
}

/// The first hit slot in row-major order, at or after row `r`.
pub open spec fn first_hit_from(
    g: Seq<Seq<Option<u64>>>,
    fx: int,
    fy: int,
    p: Projectile,
    r: int,
) -> Option<(int, int)>
    decreases g.len() - r,
{
    if r < 0 || r >= g.len() {
        None
    } else {
        match first_hit_in_row(g, fx, fy, p, r, 0) {
            Some(c) => Some((r, c)),
            None => first_hit_from(g, fx, fy, p, r + 1),
        }
    }
}

/// The first slot projectile `p` hits, in row-major order: top row first,
/// then column ascending.  That slot alone falls to `p` this tick.
pub open spec fn first_hit(g: Seq<Seq<Option<u64>>>, fx: int, fy: int, p: Projectile) -> Option<
    (int, int),
> {
    first_hit_from(g, fx, fy, p, 0)
}

/// An enemy removed by a collision, reported to the host so it can drop
/// that enemy's renderable state.
#[derive(Clone, Copy, Debug, PartialEq, Eq, Structural)]
pub struct HitRecord {
    pub row: usize,
    pub col: usize,
    pub enemy: u64,
}

/// The outcome of resolving one tick's collisions, at the level of the
/// mathematical models: the grid afterwards, the surviving projectiles in
/// order, and the removed enemies in processing order.
pub ghost struct ResolveOut {
    pub slots: Seq<Seq<Option<u64>>>,
    pub kept: Seq<Projectile>,
    pub removed: Seq<HitRecord>,
}

/// Collision resolution over the projectile sequence in order: each
/// projectile either destroys the first slot it hits in the grid as
/// earlier projectiles left it — retiring the projectile — or survives.
pub open spec fn resolve_model(
    g: Seq<Seq<Option<u64>>>,
    fx: int,
    fy: int,
    ps: Seq<Projectile>,
) -> ResolveOut
    decreases ps.len(),
{
    if ps.len() == 0 {
        ResolveOut { slots: g, kept: Seq::empty(), removed: Seq::empty() }
    } else {
        match first_hit(g, fx, fy, ps.first()) {
            Some((r, c)) => {
                let rest = resolve_model(cell_cleared(g, r, c), fx, fy, ps.drop_first());
                ResolveOut {
                    slots: rest.slots,
                    kept: rest.kept,
                    removed: seq![
                        HitRecord { row: r as usize, col: c as usize, enemy: g[r][c]->0 },
                    ] + rest.removed,
                }
            },
            None => {
                let rest = resolve_model(g, fx, fy, ps.drop_first());
                ResolveOut {
                    slots: rest.slots,
                    kept: seq![ps.first()] + rest.kept,
                    removed: rest.removed,
                }
            },
        }
    }
}

/// What one tick's collision resolution reports back to the host.
pub struct CollisionReport {
    /// The enemies destroyed this tick, in processing order.
    pub removed: Vec<HitRecord>,
    /// True exactly when this tick took the live count from positive to
    /// zero: the formation-cleared win signal.
    pub cleared: bool,
}

/// Whether an executable hit result and a specification-level one agree.
pub open spec fn res_matches_hit(res: Option<(usize, usize)>, spec_hit: Option<(int, int)>) -> bool {
    match res {
        Some((r, c)) => spec_hit == Some((r as int, c as int)),
        None => spec_hit is None,
    }
}

/// A reported first hit lands on an occupied, in-bounds slot.
pub proof fn lemma_first_hit_in_row_props(
    g: Seq<Seq<Option<u64>>>,
    fx: int,
    fy: int,
    p: Projectile,
    r: int,
    c: int,
)
    requires
        0 <= c,
    ensures
        first_hit_in_row(g, fx, fy, p, r, c) matches Some(k) ==> c <= k < g[r].len() && hit_at(
            g,
            fx,
            fy,
            p,
            r,
            k,
        ),
    decreases g[r].len() - c,
{
    if c < g[r].len() && !hit_at(g, fx, fy, p, r, c) {
        lemma_first_hit_in_row_props(g, fx, fy, p, r, c + 1);
    }
}

/// A reported first hit lands on an occupied, in-bounds slot.
pub proof fn lemma_first_hit_props(
    g: Seq<Seq<Option<u64>>>,
    fx: int,
    fy: int,
    p: Projectile,
    r: int,
)
    requires
        0 <= r,
    ensures
        first_hit_from(g, fx, fy, p, r) matches Some(rc) ==> {
            &&& r <= rc.0 < g.len()
            &&& 0 <= rc.1 < g[rc.0].len()
            &&& hit_at(g, fx, fy, p, rc.0, rc.1)
        },
    decreases g.len() - r,
{
    if r < g.len() {
        lemma_first_hit_in_row_props(g, fx, fy, p, r, 0);
        if first_hit_in_row(g, fx, fy, p, r, 0) is None {
            lemma_first_hit_props(g, fx, fy, p, r + 1);
        }
    }
}

/// A projectile hits nothing in a grid with no occupied slot.
pub proof fn lemma_empty_grid_no_hit(g: Seq<Seq<Option<u64>>>, fx: int, fy: int, p: Projectile)
    requires
        grid_count(g) == 0,
    ensures
        first_hit(g, fx, fy, p) is None,
{
    lemma_first_hit_props(g, fx, fy, p, 0);
    match first_hit(g, fx, fy, p) {
        Some(rc) => {
            crate::grid::lemma_occupied_count_pos(g, rc.0, rc.1);
        },
        None => {},
    }
}

/// Collision accounting: every projectile either survives or removes
/// exactly one enemy, so the retired projectiles and the removed enemies
/// match one to one, and the live count drops by exactly the number of
/// removals — never further.
pub proof fn lemma_resolve_accounting(
    g: Seq<Seq<Option<u64>>>,
    fx: int,
    fy: int,
    ps: Seq<Projectile>,
)
    ensures
        ({
            let m = resolve_model(g, fx, fy, ps);
            &&& m.kept.len() + m.removed.len() == ps.len()
            &&& grid_count(m.slots) + m.removed.len() == grid_count(g)
        }),
    decreases ps.len(),
{
    if ps.len() > 0 {
        lemma_first_hit_props(g, fx, fy, ps.first(), 0);
        match first_hit(g, fx, fy, ps.first()) {
            Some(rc) => {
                crate::grid::lemma_cell_cleared_count(g, rc.0, rc.1);
                lemma_resolve_accounting(cell_cleared(g, rc.0, rc.1), fx, fy, ps.drop_first());
            },
            None => {
                lemma_resolve_accounting(g, fx, fy, ps.drop_first());
            },
        }
    }
}

/// An empty formation is terminal: collision resolution on a grid whose
/// count is zero removes nothing, keeps every projectile, and leaves the
/// grid as it is — so the cleared signal, raised on the transition to
/// count zero, can never be raised again afterwards.
pub proof fn lemma_cleared_terminal(g: Seq<Seq<Option<u64>>>, fx: int, fy: int, ps: Seq<Projectile>)
    requires
        grid_count(g) == 0,
    ensures
        resolve_model(g, fx, fy, ps) == (ResolveOut { slots: g, kept: ps, removed: Seq::empty() }),
    decreases ps.len(),
{
    if ps.len() == 0 {
        assert(resolve_model(g, fx, fy, ps).kept =~= ps);
    } else {
        lemma_empty_grid_no_hit(g, fx, fy, ps.first());
        lemma_cleared_terminal(g, fx, fy, ps.drop_first());
        assert(seq![ps.first()] + ps.drop_first() =~= ps);
    }
}

/// The win signal fires at most once: if one resolution's transition
/// clears the formation, no later resolution can make the transition from
/// a positive count to zero again — the grid stays exactly as the clearing
/// tick left it and nothing further is ever removed.
pub proof fn lemma_win_signal_once(
    g: Seq<Seq<Option<u64>>>,
    fx1: int,
    fy1: int,
    ps1: Seq<Projectile>,
    fx2: int,
    fy2: int,
    ps2: Seq<Projectile>,
)
    ensures
        ({
            let first_pass = resolve_model(g, fx1, fy1, ps1);
            let second_pass = resolve_model(first_pass.slots, fx2, fy2, ps2);
            grid_count(first_pass.slots) == 0 ==> {
                &&& second_pass.slots == first_pass.slots
                &&& second_pass.kept == ps2
                &&& second_pass.removed == Seq::<HitRecord>::empty()
                &&& !(grid_count(first_pass.slots) > 0 && grid_count(second_pass.slots) == 0)
            }
        }),
{
    let first_pass = resolve_model(g, fx1, fy1, ps1);
    if grid_count(first_pass.slots) == 0 {
        lemma_cleared_terminal(first_pass.slots, fx2, fy2, ps2);
    }
}

/// The axis-aligned bounding-box test, executably: strict overlap on both
/// axes against the fixed enemy half-extents.
pub fn aabb_overlaps(px: i64, py: i64, ex: i64, ey: i64) -> (r: bool)
    requires
        -2 * COORD_LIMIT <= px <= 2 * COORD_LIMIT,
        -2 * COORD_LIMIT <= py <= 2 * COORD_LIMIT,
        -2 * COORD_LIMIT <= ex <= 2 * COORD_LIMIT,
        -2 * COORD_LIMIT <= ey <= 2 * COORD_LIMIT,
    ensures
        r == overlaps(px as int, py as int, ex as int, ey as int),
{
    px > ex - ENEMY_HALF_WIDTH && px < ex + ENEMY_HALF_WIDTH && py > ey - ENEMY_HALF_HEIGHT && py
        < ey + ENEMY_HALF_HEIGHT
}

/// Finds the first slot `p` hits in row-major order, as [`first_hit`]
/// describes: rows scanned top down, columns ascending within a row.
fn find_hit(grid: &FormationGrid, fx: i64, fy: i64, p: &Projectile) -> (res: Option<
    (usize, usize),
>)
    requires
        grid.wf(),
        -COORD_LIMIT <= fx <= COORD_LIMIT,
        -COORD_LIMIT <= fy <= COORD_LIMIT,
        p.wf(),
    ensures
        res_matches_hit(res, first_hit(grid.view(), fx as int, fy as int, *p)),
{
    let ghost g = grid.view();
    let mut r: usize = 0;
    while r < grid.rows
        invariant
            grid.wf(),
            -COORD_LIMIT <= fx <= COORD_LIMIT,
            -COORD_LIMIT <= fy <= COORD_LIMIT,
            p.wf(),
            g == grid.view(),
            r <= grid.rows,
            first_hit(g, fx as int, fy as int, *p) == first_hit_from(g, fx as int, fy as int, *p, r as int),
        decreases grid.rows - r,
    {
        let mut c: usize = 0;
        while c < grid.cols
            invariant
                grid.wf(),
                -COORD_LIMIT <= fx <= COORD_LIMIT,
                -COORD_LIMIT <= fy <= COORD_LIMIT,
                p.wf(),
                g == grid.view(),
                r < grid.rows,
                c <= grid.cols,
                first_hit(g, fx as int, fy as int, *p) == first_hit_from(g, fx as int, fy as int, *p, r as int),
                first_hit_in_row(g, fx as int, fy as int, *p, r as int, 0) == first_hit_in_row(
                    g,
                    fx as int,
                    fy as int,
                    *p,
                    r as int,
                    c as int,
                ),
            decreases grid.cols - c,
        {
            let ex: i64 = fx - (c as i64) * COLUMN_SPACING;
            let ey: i64 = fy + ENEMY_TOP_OFFSET - (r as i64) * ROW_SPACING;
            let occupied = grid.slot(r, c).is_some();
            if occupied && aabb_overlaps(p.x, p.y, ex, ey) {
                proof {
                    assert(hit_at(g, fx as int, fy as int, *p, r as int, c as int));
                }
                return Some((r, c));
            }
            proof {
                assert(!hit_at(g, fx as int, fy as int, *p, r as int, c as int));
            }
            c = c + 1;
        }
        r = r + 1;
    }
    None
}

/// Resolves one tick's collisions, as [`resolve_model`] describes: each
/// live projectile destroys at most the first enemy it overlaps, enemies
/// fall out of the grid through its counted removal, and the cleared
/// signal is raised exactly when this tick takes the live count from
/// positive to zero.
pub fn resolve_collisions(form: &mut Formation, projectiles: &mut Vec<Projectile>) -> (report:
    CollisionReport)
    requires
        old(form).wf(),
        forall|i: int| 0 <= i < old(projectiles)@.len() ==> (#[trigger] old(projectiles)@[i]).wf(),
    ensures
        final(form).wf(),
        ({
            let m = resolve_model(
                old(form).grid.view(),
                old(form).x as int,
                old(form).y as int,
                old(projectiles)@,
            );
            &&& final(form).grid.view() == m.slots
            &&& final(projectiles)@ == m.kept
            &&& report.removed@ == m.removed
        }),
        final(form).x == old(form).x,
        final(form).y == old(form).y,
        final(form).vx == old(form).vx,
        final(form).vy == old(form).vy,
        final(form).grid.facing == old(form).grid.facing,
        final(form).grid.rows == old(form).grid.rows,
        final(form).grid.cols == old(form).grid.cols,
        report.cleared == (grid_count(old(form).grid.view()) > 0 && grid_count(
            final(form).grid.view(),
        ) == 0),
        forall|i: int| 0 <= i < final(projectiles)@.len() ==> (#[trigger] final(projectiles)@[i]).wf(),
    {
    let ghost g0 = form.grid.view();
    let ghost ps0 = projectiles@;
    let ghost fx = form.x as int;
    let ghost fy = form.y as int;
    let had_enemies = form.grid.count > 0;
    let mut kept: Vec<Projectile> = Vec::new();
    let mut removed: Vec<HitRecord> = Vec::new();
    let n = projectiles.len();
    let mut i: usize = 0;
    proof {
        assert(ps0.skip(0) =~= ps0);
        let full = resolve_model(g0, fx, fy, ps0);
        assert(full.kept =~= Seq::<Projectile>::empty() + full.kept);
        assert(full.removed =~= Seq::<HitRecord>::empty() + full.removed);
    }
    while i < n
        invariant
            form.wf(),
            form.x == old(form).x,
            form.y == old(form).y,
            form.vx == old(form).vx,
            form.vy == old(form).vy,
            form.grid.facing == old(form).grid.facing,
            form.grid.rows == old(form).grid.rows,
            form.grid.cols == old(form).grid.cols,
            projectiles@ == ps0,
            n == ps0.len(),
            i <= n,
            fx == form.x as int,
            fy == form.y as int,
            forall|j: int| 0 <= j < ps0.len() ==> (#[trigger] ps0[j]).wf(),
            forall|j: int| 0 <= j < kept@.len() ==> (#[trigger] kept@[j]).wf(),
            ({
                let full = resolve_model(g0, fx, fy, ps0);
                let restm = resolve_model(form.grid.view(), fx, fy, ps0.skip(i as int));
                &&& full.slots == restm.slots
                &&& full.kept == kept@ + restm.kept
                &&& full.removed == removed@ + restm.removed
            }),
        decreases n - i,
    {
        let ghost g_cur = form.grid.view();
        let ghost tail = ps0.skip(i as int);
        proof {
            assert(tail.first() == ps0[i as int]);
            assert(tail.drop_first() =~= ps0.skip(i as int + 1));
        }
        let p = projectiles[i];
        match find_hit(&form.grid, form.x, form.y, &p) {
            Some((r, c)) => {
                proof {
                    lemma_first_hit_props(g_cur, fx, fy, p, 0);
                }
                match form.grid.remove(r, c) {
                    Ok(id) => {
                        removed.push(HitRecord { row: r, col: c, enemy: id });
                        proof {
                            let full = resolve_model(g0, fx, fy, ps0);
                            let restm = resolve_model(g_cur, fx, fy, tail);
                            let hr = HitRecord { row: r, col: c, enemy: g_cur[r as int][c as int]->0 };
                            assert(restm.removed == seq![hr] + resolve_model(
                                form.grid.view(),
                                fx,
                                fy,
                                ps0.skip(i as int + 1),
                            ).removed);
                            assert(removed@ =~= (removed@.drop_last() + seq![hr]));
                            assert(full.removed =~= removed@ + resolve_model(
                                form.grid.view(),
                                fx,
                                fy,
                                ps0.skip(i as int + 1),
                            ).removed);
                        }
                    },
                    Err(_) => {
                        proof {
                            assert(false);
                        }
                    },
                }
            },
            None => {
                kept.push(p);
                proof {
                    let full = resolve_model(g0, fx, fy, ps0);
                    let restm = resolve_model(g_cur, fx, fy, tail);
                    assert(restm.kept == seq![p] + resolve_model(
                        form.grid.view(),
                        fx,
                        fy,
                        ps0.skip(i as int + 1),
                    ).kept);
                    assert(kept@ =~= (kept@.drop_last() + seq![p]));
                    assert(full.kept =~= kept@ + resolve_model(
                        form.grid.view(),
                        fx,
                        fy,
                        ps0.skip(i as int + 1),
                    ).kept);
                }
            },
        }
        i = i + 1;
    }
    proof {
        assert(ps0.skip(n as int) =~= Seq::<Projectile>::empty());
        let full = resolve_model(g0, fx, fy, ps0);
        assert(full.kept =~= kept@);
        assert(full.removed =~= removed@);
    }
    let cleared = had_enemies && form.grid.count == 0;
    *projectiles = kept;
    CollisionReport { removed, cleared }
}

} // verus!
