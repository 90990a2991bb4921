//! The formation grid: a rectangular array of enemy slots, the live count,
//! and the facing direction of the formation as a whole.
//!
//! Each slot is either empty or holds one opaque enemy handle the host uses
//! to locate that enemy's renderable state.  The live count is kept
//! incrementally — every removal decrements it — and always equals the
//! number of occupied slots.

use vstd::prelude::*;

verus! {

/// Horizontal orientation of the formation (and of the player when it is
/// not neutral): drives both the movement sign and sprite selection.
#[derive(Clone, Copy, Debug, PartialEq, Eq, Structural)]
pub enum Direction {
    Right,
    Left,
}

/// An internal-consistency fault: a programming-logic error detected and
/// reported instead of corrupting state.
#[derive(Clone, Copy, Debug, PartialEq, Eq, Structural)]
pub enum SimFault {
    /// `remove` was asked to clear a slot that is already empty.
    RemoveFromEmpty,
}

/// Upper bound on the number of rows and on the number of columns; the
/// full-rescan column bounds are only meant for formations of tens of cells.
pub const MAX_DIM: usize = 100;

/// The number of occupied slots in one row.
pub open spec fn row_count(row: Seq<Option<u64>>) -> nat
    decreases row.len(),
{
    if row.len() == 0 {
        0
    } else {
        row_count(row.drop_last()) + (if row.last() is Some {
            1nat
        } else {
            0nat
        })
    }
}

/// The number of occupied slots in the whole grid.
pub open spec fn grid_count(g: Seq<Seq<Option<u64>>>) -> nat
    decreases g.len(),
{
    if g.len() == 0 {
        0
    } else {
        grid_count(g.drop_last()) + row_count(g.last())
    }
}

/// The column count of a grid (0 when there are no rows).
pub open spec fn cols_of(g: Seq<Seq<Option<u64>>>) -> int {
    if g.len() == 0 {
        0
    } else {
        g[0].len() as int
    }
}

/// Whether column `c` holds at least one occupied slot.
pub open spec fn col_occupied(g: Seq<Seq<Option<u64>>>, c: int) -> bool {
    exists|r: int| 0 <= r < g.len() && (#[trigger] g[r][c]) is Some
}

/// The first occupied column at or after `c`, scanning left to right.
pub open spec fn first_occ_from(g: Seq<Seq<Option<u64>>>, c: int) -> Option<int>
    decreases cols_of(g) - c,
{
    if c < 0 || c >= cols_of(g) {
        None
    } else if col_occupied(g, c) {
        Some(c)
    } else {
        first_occ_from(g, c + 1)
    }
}

/// The leftmost column holding an occupied slot.
pub open spec fn first_occupied(g: Seq<Seq<Option<u64>>>) -> Option<int> {
    first_occ_from(g, 0)
}

/// The last occupied column at or before `c`, scanning right to left.
pub open spec fn last_occ_from(g: Seq<Seq<Option<u64>>>, c: int) -> Option<int>
    decreases c + 1,
{
    if c < 0 || c >= cols_of(g) {
        None
    } else if col_occupied(g, c) {
        Some(c)
    } else {
        last_occ_from(g, c - 1)
    }
}

/// The rightmost column holding an occupied slot.
pub open spec fn last_occupied(g: Seq<Seq<Option<u64>>>) -> Option<int> {
    last_occ_from(g, cols_of(g) - 1)
}

/// The opposite facing.
pub open spec fn flipped(d: Direction) -> Direction {
    match d {
        Direction::Right => Direction::Left,
        Direction::Left => Direction::Right,
    }
}

/// The grid with slot `(r, c)` cleared.
pub open spec fn cell_cleared(g: Seq<Seq<Option<u64>>>, r: int, c: int) -> Seq<
    Seq<Option<u64>>,
> {
    g.update(r, g[r].update(c, None))
}

/// The rectangular array of enemy slots, with its live count and facing.
/// All operations require [`FormationGrid::wf`], which the constructor
/// establishes and every method preserves.
pub struct FormationGrid {
    pub rows: usize,
    pub cols: usize,
    pub slots: Vec<Vec<Option<u64>>>,
    pub count: usize,
    pub facing: Direction,
}

impl FormationGrid {
    /// The grid's slots as a sequence of rows.
    pub open spec fn view(&self) -> Seq<Seq<Option<u64>>> {
        Seq::new(self.slots@.len() as nat, |i: int| self.slots@[i]@)
    }

    /// Well-formedness: the slot array is rectangular with the stated
    /// dimensions, both dimensions are small, and the live count equals the
    /// number of occupied slots.
    pub open spec fn wf(&self) -> bool {
        &&& self.slots@.len() == self.rows
        &&& forall|r: int| 0 <= r < self.rows ==> (#[trigger] self.slots@[r])@.len() == self.cols
        &&& self.rows <= MAX_DIM
        &&& self.cols <= MAX_DIM
        &&& self.count == grid_count(self.view())
    }

    /// The handle in slot `(r, c)`, or `None` for an empty slot.
    pub fn slot(&self, r: usize, c: usize) -> (res: Option<u64>)
        requires
            self.wf(),
            r < self.rows,
            c < self.cols,
        ensures
            res == self.view()[r as int][c as int],
    {
        self.slots[r][c]
    }

    /// Builds a grid from a rectangular slot array, counting the occupied
    /// slots once; the formation starts out facing right.
    pub fn from_slots(slots: Vec<Vec<Option<u64>>>) -> (grid: FormationGrid)
        requires
            slots@.len() >= 1,
            slots@.len() <= MAX_DIM,
            slots@[0]@.len() <= MAX_DIM,
            forall|r: int|
                0 <= r < slots@.len() ==> (#[trigger] slots@[r])@.len() == slots@[0]@.len(),
        ensures
            grid.wf(),
            grid.view() == Seq::new(slots@.len() as nat, |i: int| slots@[i]@),
            grid.rows == slots@.len(),
            grid.cols == slots@[0]@.len(),
            grid.facing == Direction::Right,
    {
        let rows = slots.len();
        let cols = slots[0].len();
        let ghost gv = Seq::new(slots@.len() as nat, |i: int| slots@[i]@);
        let mut count: usize = 0;
        let mut r: usize = 0;
        while r < rows
            invariant
                rows == slots@.len(),
                cols == slots@[0]@.len(),
                rows <= MAX_DIM,
                cols <= MAX_DIM,
                forall|i: int| 0 <= i < rows ==> (#[trigger] slots@[i])@.len() == cols,
                gv == Seq::new(slots@.len() as nat, |i: int| slots@[i]@),
                r <= rows,
                count == grid_count(gv.take(r as int)),
                count <= r * MAX_DIM,
            decreases rows - r,
        {
            let row_len = slots[r].len();
            let mut c: usize = 0;
            let mut in_row: usize = 0;
            while c < row_len
                invariant
                    r < rows,
                    rows == slots@.len(),
                    row_len == slots@[r as int]@.len(),
                    row_len <= MAX_DIM,
                    c <= row_len,
                    in_row == row_count(slots@[r as int]@.take(c as int)),
                    in_row <= c,
                decreases row_len - c,
            {
                proof {
                    assert(slots@[r as int]@.take(c as int + 1).drop_last() =~= slots@[r as
                        int]@.take(c as int));
                    assert(slots@[r as int]@.take(c as int + 1).last() == slots@[r as int]@[c
                        as int]);
                }
                if slots[r][c].is_some() {
                    in_row = in_row + 1;
                }
                c = c + 1;
            }
            proof {
                assert(slots@[r as int]@.take(row_len as int) =~= slots@[r as int]@);
                assert(gv.take(r as int + 1).drop_last() =~= gv.take(r as int));
                assert(gv.take(r as int + 1).last() == gv[r as int]);
                assert(gv[r as int] == slots@[r as int]@);
            }
            count = count + in_row;
            r = r + 1;
        }
        proof {
            assert(gv.take(rows as int) =~= gv);
        }
        FormationGrid { rows, cols, slots, count, facing: Direction::Right }
    }

    /// Marks slot `(r, c)` empty and decrements the live count by exactly
    /// one.  Asking to remove from an already-empty slot is a logic fault:
    /// the grid is left unchanged and the fault is reported, so a double
    /// removal can never drive the count below the number of live enemies.
    pub fn remove(&mut self, r: usize, c: usize) -> (res: Result<u64, SimFault>)
        requires
            old(self).wf(),
            r < old(self).rows,
            c < old(self).cols,
        ensures
            final(self).wf(),
            final(self).rows == old(self).rows,
            final(self).cols == old(self).cols,
            final(self).facing == old(self).facing,
            old(self).view()[r as int][c as int] is Some ==> {
                &&& res == Ok::<u64, SimFault>(old(self).view()[r as int][c as int]->0)
                &&& final(self).view() == cell_cleared(old(self).view(), r as int, c as int)
                &&& final(self).count == old(self).count - 1
            },
            old(self).view()[r as int][c as int] is None ==> {
                &&& res == Err::<u64, SimFault>(SimFault::RemoveFromEmpty)
                &&& *final(self) == *old(self)
            },
    {
        match self.slots[r][c] {
            None => Err(SimFault::RemoveFromEmpty),
            Some(id) => {
                proof {
                    lemma_cell_cleared_count(self.view(), r as int, c as int);
                    lemma_occupied_count_pos(self.view(), r as int, c as int);
                }
                self.slots[r][c] = None;
                self.count = self.count - 1;
                proof {
                    assert(self.view() =~= cell_cleared(old(self).view(), r as int, c as int));
                }
                Ok(id)
            },
        }
    }

    /// Flips the formation's facing between left and right; the slots and
    /// the count are untouched.
    pub fn toggle_direction(&mut self)
        ensures
            final(self).facing == flipped(old(self).facing),
            final(self).view() == old(self).view(),
            final(self).rows == old(self).rows,
            final(self).cols == old(self).cols,
            final(self).count == old(self).count,
            old(self).wf() ==> final(self).wf(),
    {
        self.facing = match self.facing {
            Direction::Right => Direction::Left,
            Direction::Left => Direction::Right,
        };
    }

    /// Scans columns left to right, each top to bottom, for the first
    /// column holding any occupied slot; `None` when the grid is empty.
    pub fn first_occupied_column(&self) -> (res: Option<usize>)
        requires
            self.wf(),
        ensures
            res_matches_col(res, first_occupied(self.view())),
    {
        let mut c: usize = 0;
        while c < self.cols
            invariant
                self.wf(),
                c <= self.cols,
                first_occupied(self.view()) == first_occ_from(self.view(), c as int),
            decreases self.cols - c,
        {
            let mut r: usize = 0;
            while r < self.rows
                invariant
                    self.wf(),
                    c < self.cols,
                    r <= self.rows,
                    first_occupied(self.view()) == first_occ_from(self.view(), c as int),
                    forall|i: int| 0 <= i < r ==> !((#[trigger] self.view()[i][c as int]) is Some),
                decreases self.rows - r,
            {
                if self.slots[r][c].is_some() {
                    proof {
                        assert(self.view()[r as int][c as int] is Some);
                        assert(col_occupied(self.view(), c as int));
                        assert(cols_of(self.view()) == self.cols);
                    }
                    return Some(c);
                }
                r = r + 1;
            }
            proof {
                assert(!col_occupied(self.view(), c as int));
            }
            c = c + 1;
        }
        None
    }

    /// Scans columns right to left, each top to bottom, for the last
    /// column holding any occupied slot; `None` when the grid is empty.
    pub fn last_occupied_column(&self) -> (res: Option<usize>)
        requires
            self.wf(),
        ensures
            res_matches_col(res, last_occupied(self.view())),
    {
        let mut c: usize = self.cols;
        while c > 0
            invariant
                self.wf(),
                c <= self.cols,
                last_occupied(self.view()) == last_occ_from(self.view(), c as int - 1),
            decreases c,
        {
            let mut r: usize = 0;
            while r < self.rows
                invariant
                    self.wf(),
                    0 < c <= self.cols,
                    r <= self.rows,
                    last_occupied(self.view()) == last_occ_from(self.view(), c as int - 1),
                    forall|i: int|
                        0 <= i < r ==> !((#[trigger] self.view()[i][c as int - 1]) is Some),
                decreases self.rows - r,
            {
                if self.slots[r][c - 1].is_some() {
                    proof {
                        assert(self.view()[r as int][c as int - 1] is Some);
                        assert(col_occupied(self.view(), c as int - 1));
                        assert(cols_of(self.view()) == self.cols);
                    }
                    return Some(c - 1);
                }
                r = r + 1;
            }
            proof {
                assert(!col_occupied(self.view(), c as int - 1));
            }
            c = c - 1;
        }
        None
    }
}

/// Whether an executable column result and a specification-level one agree.
pub open spec fn res_matches_col(res: Option<usize>, spec_col: Option<int>) -> bool {
    match res {
        Some(c) => spec_col == Some(c as int),
        None => spec_col is None,
    }
}

/// Clearing an occupied slot of a row lowers its occupied-slot count by one.
pub proof fn lemma_row_count_clear(row: Seq<Option<u64>>, c: int)
    requires
        0 <= c < row.len(),
        row[c] is Some,
    ensures
        row_count(row.update(c, None)) == row_count(row) - 1,
    decreases row.len(),
{
    if c == row.len() - 1 {
        assert(row.update(c, None).drop_last() =~= row.drop_last());
    } else {
        lemma_row_count_clear(row.drop_last(), c);
        assert(row.update(c, None).drop_last() =~= row.drop_last().update(c, None));
        assert(row.update(c, None).last() == row.last());
    }
}

/// Clearing an occupied slot lowers the grid count by exactly one.
pub proof fn lemma_cell_cleared_count(g: Seq<Seq<Option<u64>>>, r: int, c: int)
    requires
        0 <= r < g.len(),
        0 <= c < g[r].len(),
        g[r][c] is Some,
    ensures
        grid_count(cell_cleared(g, r, c)) + 1 == grid_count(g),
{
    lemma_row_count_clear(g[r], c);
    lemma_grid_count_set_row(g, r, g[r].update(c, None));
}

/// Replacing one row changes the grid count by the rows' difference.
pub proof fn lemma_grid_count_set_row(g: Seq<Seq<Option<u64>>>, r: int, row: Seq<Option<u64>>)
    requires
        0 <= r < g.len(),
    ensures
        grid_count(g.update(r, row)) + row_count(g[r]) == grid_count(g) + row_count(row),
    decreases g.len(),
{
    if r == g.len() - 1 {
        assert(g.update(r, row).drop_last() =~= g.drop_last());
    } else {
        lemma_grid_count_set_row(g.drop_last(), r, row);
        assert(g.update(r, row).drop_last() =~= g.drop_last().update(r, row));
        assert(g.update(r, row).last() == g.last());
    }
}

/// A row with an occupied slot has a positive occupied-slot count.
pub proof fn lemma_row_occupied_count_pos(row: Seq<Option<u64>>, c: int)
    requires
        0 <= c < row.len(),
        row[c] is Some,
    ensures
        row_count(row) >= 1,
    decreases row.len(),
{
    if c < row.len() - 1 {
        lemma_row_occupied_count_pos(row.drop_last(), c);
    }
}

/// A grid with an occupied slot has a positive count.
pub proof fn lemma_occupied_count_pos(g: Seq<Seq<Option<u64>>>, r: int, c: int)
    requires
        0 <= r < g.len(),
        0 <= c < g[r].len(),
        g[r][c] is Some,
    ensures
        grid_count(g) >= 1,
    decreases g.len(),
{
    if r == g.len() - 1 {
        lemma_row_occupied_count_pos(g[r], c);
    } else {
        lemma_occupied_count_pos(g.drop_last(), r, c);
    }
}

/// A grid whose count is positive has an occupied slot.
pub proof fn lemma_count_pos_occupied(g: Seq<Seq<Option<u64>>>)
    requires
        grid_count(g) >= 1,
    ensures
        exists|r: int, c: int|
            0 <= r < g.len() && 0 <= c < g[r].len() && (#[trigger] g[r][c]) is Some,
    decreases g.len(),
{
    if g.len() > 0 {
        if row_count(g.last()) >= 1 {
            lemma_row_count_pos_occupied(g.last());
            let c = choose|c: int| 0 <= c < g.last().len() && (#[trigger] g.last()[c]) is Some;
            assert(g[g.len() - 1][c] is Some);
        } else {
            lemma_count_pos_occupied(g.drop_last());
            let (r, c) = choose|r: int, c: int|
                0 <= r < g.drop_last().len() && 0 <= c < g.drop_last()[r].len() && (#[trigger] g
                    .drop_last()[r][c]) is Some;
            assert(g[r][c] is Some);
        }
    }
}

/// A row whose occupied-slot count is positive has an occupied slot.
pub proof fn lemma_row_count_pos_occupied(row: Seq<Option<u64>>)
    requires
        row_count(row) >= 1,
    ensures
        exists|c: int| 0 <= c < row.len() && (#[trigger] row[c]) is Some,
    decreases row.len(),
{
    if row.len() > 0 {
        if row.last() is Some {
            assert(row[row.len() - 1] is Some);
        } else {
            lemma_row_count_pos_occupied(row.drop_last());
            let c = choose|c: int| 0 <= c < row.drop_last().len() && (#[trigger] row.drop_last()[c])
                is Some;
            assert(row[c] is Some);
        }
    }
}

/// When the first-occupied scan reports no column, no column at or after
/// the scan start is occupied; when it reports one, that column is occupied
/// and every column before it (at or after the start) is not.
pub proof fn lemma_first_occ_props(g: Seq<Seq<Option<u64>>>, c: int)
    requires
        0 <= c,
    ensures
        first_occ_from(g, c) is None ==> forall|j: int|
            c <= j < cols_of(g) ==> !col_occupied(g, j),
        first_occ_from(g, c) matches Some(k) ==> c <= k < cols_of(g) && col_occupied(g, k)
            && forall|j: int| c <= j < k ==> !col_occupied(g, j),
    decreases cols_of(g) - c,
{
    if c < cols_of(g) && !col_occupied(g, c) {
        lemma_first_occ_props(g, c + 1);
    }
}

/// The right-to-left counterpart of [`lemma_first_occ_props`].
pub proof fn lemma_last_occ_props(g: Seq<Seq<Option<u64>>>, c: int)
    requires
        c < cols_of(g),
    ensures
        last_occ_from(g, c) is None ==> forall|j: int| 0 <= j <= c ==> !col_occupied(g, j),
        last_occ_from(g, c) matches Some(k) ==> 0 <= k <= c && col_occupied(g, k) && forall|j: int|
            k < j <= c ==> !col_occupied(g, j),
    decreases c + 1,
{
    if 0 <= c && !col_occupied(g, c) {
        lemma_last_occ_props(g, c - 1);
    }
}

/// A non-empty formation always has a first and a last occupied column:
/// the column scans cannot come back empty while the count is positive.
pub proof fn lemma_count_pos_bounds_exist(g: Seq<Seq<Option<u64>>>)
    requires
        grid_count(g) >= 1,
        forall|r: int| 0 <= r < g.len() ==> (#[trigger] g[r]).len() == cols_of(g),
    ensures
        first_occupied(g) is Some,
        last_occupied(g) is Some,
{
    lemma_count_pos_occupied(g);
    let (r, c) = choose|r: int, c: int|
        0 <= r < g.len() && 0 <= c < g[r].len() && (#[trigger] g[r][c]) is Some;
    assert(col_occupied(g, c));
    lemma_first_occ_props(g, 0);
    lemma_last_occ_props(g, cols_of(g) - 1);
}

} // verus!
