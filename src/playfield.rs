use vstd::prelude::*;

use crate::collision::{CollisionFlags, CollisionResult};
use crate::game::TetriminoType;
use crate::point::Point;

verus! {

/// Number of rows of the playfield: the twenty visible rows and twenty
/// buffer rows above them.
pub const ROWS: usize = 40;

/// Number of columns of the playfield.
pub const COLS: usize = 10;

/// Whether `p` names a cell of the playfield.
pub open spec fn in_grid(p: Point) -> bool {
    0 <= p.row < ROWS && 0 <= p.col < COLS
}

/// Whether `p` lies left or right of the playfield.
pub open spec fn hits_wall(p: Point) -> bool {
    p.col < 0 || p.col >= COLS
}

/// Whether `p` lies below the bottom row of the playfield.
pub open spec fn hits_floor(p: Point) -> bool {
    p.row >= ROWS
}

/// Whether `g` has `ROWS` rows of `COLS` cells each.
pub open spec fn grid_shaped(g: Seq<Seq<TetriminoType>>) -> bool {
    g.len() == ROWS && forall|i: int| 0 <= i < ROWS ==> (#[trigger] g[i]).len() == COLS
}

/// Whether one of `cells` names the cell at row `r`, column `c`.
pub open spec fn covers(cells: Seq<Point>, r: int, c: int) -> bool {
    exists|j: int| 0 <= j < cells.len() && cells[j].row == r && #[trigger] cells[j].col == c
}

/// Grid in which the tetriminos fall.
///
/// Each cell stores the [TetriminoType] of the tetrimino locked into it,
/// or `NONE` when the cell is empty. Row 0 is the top row.
pub struct Playfield {
    grid: [[TetriminoType; COLS]; ROWS],
}

impl View for Playfield {
    type V = Seq<Seq<TetriminoType>>;

    /// The grid, row by row.
    closed spec fn view(&self) -> Seq<Seq<TetriminoType>> {
        Seq::new(ROWS as nat, |r: int| self.grid[r]@)
    }
}

impl Playfield {
    /// The content of cell `p`.
    pub open spec fn cell(self, p: Point) -> TetriminoType {
        self@[p.row as int][p.col as int]
    }

    /// Whether `p` is a cell of the grid that holds a locked block.
    pub open spec fn occupied(self, p: Point) -> bool {
        in_grid(p) && self.cell(p) != TetriminoType::NONE
    }

    /// The violations that placing a piece on `cells` would cause.
    ///
    /// A cell above the top row (`row < 0`) but within the columns causes
    /// none: pieces spawn and rotate there before they fall into view.
    pub open spec fn collisions(self, cells: Seq<Point>) -> CollisionFlags {
        CollisionFlags {
            wall: exists|i: int| 0 <= i < cells.len() && hits_wall(#[trigger] cells[i]),
            floor: exists|i: int| 0 <= i < cells.len() && hits_floor(#[trigger] cells[i]),
            mino: exists|i: int| 0 <= i < cells.len() && self.occupied(#[trigger] cells[i]),
        }
    }

    /// Every playfield has `ROWS` rows of `COLS` cells.
    pub proof fn lemma_shape(self)
        ensures
            grid_shaped(self@),
    {
    }

    /// Builds a playfield whose every cell is empty.
    pub fn new() -> (r: Playfield)
        ensures
            grid_shaped(r@),
            forall|i: int, j: int|
                0 <= i < ROWS && 0 <= j < COLS ==> #[trigger] r@[i][j] == TetriminoType::NONE,
    {
        Playfield { grid: [[TetriminoType::NONE; COLS]; ROWS] }
    }

    /// The content of cell `p`.
    pub fn get(&self, p: Point) -> (r: TetriminoType)
        requires
            in_grid(p),
        ensures
            r == self.cell(p),
    {
        self.grid[p.row as usize][p.col as usize]
    }

    /// Row `row` of the grid, for a caller to read or rewrite in place.
    pub fn row_mut(&mut self, row: usize) -> (r: &mut [TetriminoType; COLS])
        requires
            row < ROWS,
        ensures
            r@ == old(self)@[row as int],
            final(self)@ == old(self)@.update(row as int, final(r)@),
    {
        &mut self.grid[row]
    }

    /// Writes `kind` into cell `p`, leaving every other cell as it was.
    pub fn set(&mut self, p: Point, kind: TetriminoType)
        requires
            in_grid(p),
        ensures
            final(self)@ == old(self)@.update(
                p.row as int,
                old(self)@[p.row as int].update(p.col as int, kind),
            ),
    {
        self.grid[p.row as usize][p.col as usize] = kind;
        proof {
            assert(self@ =~= old(self)@.update(
                p.row as int,
                old(self)@[p.row as int].update(p.col as int, kind),
            ));
        }
    }

    /// The violations that a piece on cell `p` alone would cause.
    fn test_point(&self, p: Point) -> (r: CollisionResult)
        ensures
            r@ == (CollisionFlags {
                wall: hits_wall(p),
                floor: hits_floor(p),
                mino: self.occupied(p),
            }),
            r == CollisionResult::from_flags(r@),
    {
        let mut r = CollisionResult::none();
        if p.col < 0 || p.col >= COLS as i32 {
            r = r.union(CollisionResult::wall());
        }
        if p.row >= ROWS as i32 {
            r = r.union(CollisionResult::floor());
        }
        if 0 <= p.row && p.row < ROWS as i32 && 0 <= p.col && p.col < COLS as i32 {
            if self.grid[p.row as usize][p.col as usize] != TetriminoType::NONE {
                r = r.union(CollisionResult::mino());
            }
        }
        r
    }

    /// Tests a piece placed on `cells` against the playfield.
    ///
    /// Reports every violation at once: `WALL` when some cell lies left or
    /// right of the grid, `FLOOR` when some cell lies below the bottom row,
    /// `MINO` when some cell of the grid that it names holds a locked block.
    /// Cells above the top row cause no violation. An empty result means the
    /// placement is legal.
    pub fn test_collision(&self, cells: &[Point]) -> (r: CollisionResult)
        ensures
            r@ == self.collisions(cells@),
            r == CollisionResult::from_flags(self.collisions(cells@)),
    {
        let mut acc = CollisionResult::none();
        let mut i: usize = 0;
        while i < cells.len()
            invariant
                i <= cells@.len(),
                acc@ == self.collisions(cells@.take(i as int)),
                acc == CollisionResult::from_flags(acc@),
            decreases cells@.len() - i,
        {
            let p = cells[i];
            let hit = self.test_point(p);
            acc = acc.union(hit);
            proof {
                let before = cells@.take(i as int);
                let after = cells@.take(i + 1);
                assert(after =~= before.push(p));
                if self.collisions(before).wall {
                    let j = choose|j: int| 0 <= j < before.len() && hits_wall(before[j]);
                    assert(after[j] == before[j]);
                }
                if self.collisions(before).floor {
                    let j = choose|j: int| 0 <= j < before.len() && hits_floor(before[j]);
                    assert(after[j] == before[j]);
                }
                if self.collisions(before).mino {
                    let j = choose|j: int| 0 <= j < before.len() && self.occupied(before[j]);
                    assert(after[j] == before[j]);
                }
                assert(after[i as int] == p);
            }
            i = i + 1;
        }
        proof {
            assert(cells@.take(i as int) =~= cells@);
        }
        acc
    }

    /// Writes `kind` into every cell of `cells`, leaving the other cells as
    /// they were.
    ///
    /// The write is unconditional: a caller locks a piece after
    /// `test_collision` found its cells free.
    pub fn lock(&mut self, cells: &[Point], kind: TetriminoType)
        requires
            forall|j: int| 0 <= j < cells@.len() ==> in_grid(#[trigger] cells@[j]),
        ensures
            forall|r: int, c: int|
                0 <= r < ROWS && 0 <= c < COLS ==> #[trigger] final(self)@[r][c] == if covers(
                    cells@,
                    r,
                    c,
                ) {
                    kind
                } else {
                    old(self)@[r][c]
                },
    {
        let ghost start = self@;
        let mut i: usize = 0;
        while i < cells.len()
            invariant
                i <= cells@.len(),
                forall|j: int| 0 <= j < cells@.len() ==> in_grid(#[trigger] cells@[j]),
                grid_shaped(start),
                grid_shaped(self@),
                forall|r: int, c: int|
                    0 <= r < ROWS && 0 <= c < COLS ==> #[trigger] self@[r][c] == if covers(
                        cells@.take(i as int),
                        r,
                        c,
                    ) {
                        kind
                    } else {
                        start[r][c]
                    },
            decreases cells@.len() - i,
        {
            let p = cells[i];
            let ghost prev = self@;
            self.set(p, kind);
            proof {
                let before = cells@.take(i as int);
                let after = cells@.take(i + 1);
                assert(after =~= before.push(p));
                assert forall|r: int, c: int| 0 <= r < ROWS && 0 <= c < COLS implies #[trigger] self@[r][c]
                    == if covers(after, r, c) {
                    kind
                } else {
                    start[r][c]
                } by {
                    if r == p.row && c == p.col {
                        assert(after[i as int] == p);
                    } else {
                        if covers(before, r, c) {
                            let j = choose|j: int|
                                0 <= j < before.len() && before[j].row == r && #[trigger] before[j].col == c;
                            assert(after[j] == before[j]);
                        }
                        if covers(after, r, c) {
                            let j = choose|j: int|
                                0 <= j < after.len() && after[j].row == r && #[trigger] after[j].col == c;
                            assert(j < i);
                            assert(before[j] == after[j]);
                        }
                        assert(self@[r][c] == prev[r][c]);
                    }
                }
            }
            i = i + 1;
        }
        proof {
            assert(cells@.take(i as int) =~= cells@);
        }
    }
}

impl core::ops::Index<usize> for Playfield {
    type Output = [TetriminoType; COLS];

    /// Row `index` of the grid.
    fn index(&self, index: usize) -> (r: &[TetriminoType; COLS])
        ensures
            r@ == self@[index as int],
    {
        &self.grid[index]
    }
}

impl vstd::std_specs::core::IndexSpecImpl<usize> for Playfield {
    open spec fn index_req(&self, index: &usize) -> bool {
        *index < ROWS
    }
}

impl core::ops::Index<Point> for Playfield {
    type Output = TetriminoType;

    /// Cell `index` of the grid.
    fn index(&self, index: Point) -> (r: &TetriminoType)
        ensures
            *r == self.cell(index),
    {
        &self.grid[index.row as usize][index.col as usize]
    }
}

impl vstd::std_specs::core::IndexSpecImpl<Point> for Playfield {
    open spec fn index_req(&self, index: &Point) -> bool {
        in_grid(*index)
    }
}

impl Default for Playfield {
    fn default() -> (r: Playfield)
        ensures
            grid_shaped(r@),
            forall|i: int, j: int|
                0 <= i < ROWS && 0 <= j < COLS ==> #[trigger] r@[i][j] == TetriminoType::NONE,
    {
        Playfield::new()
    }
}

/// A piece whose cells all lie in the grid, on empty cells, causes no
/// violation.
pub proof fn lemma_free_cells_do_not_collide(field: Playfield, cells: Seq<Point>)
    requires
        forall|j: int| 0 <= j < cells.len() ==> in_grid(#[trigger] cells[j]),
        forall|j: int| 0 <= j < cells.len() ==> #[trigger] field.cell(cells[j]) == TetriminoType::NONE,
    ensures
        field.collisions(cells) == (CollisionFlags { wall: false, floor: false, mino: false }),
{
    assert(!field.collisions(cells).wall) by {
        if field.collisions(cells).wall {
            let j = choose|j: int| 0 <= j < cells.len() && hits_wall(cells[j]);
            assert(in_grid(cells[j]));
        }
    }
    assert(!field.collisions(cells).floor) by {
        if field.collisions(cells).floor {
            let j = choose|j: int| 0 <= j < cells.len() && hits_floor(cells[j]);
            assert(in_grid(cells[j]));
        }
    }
    assert(!field.collisions(cells).mino) by {
        if field.collisions(cells).mino {
            let j = choose|j: int| 0 <= j < cells.len() && field.occupied(cells[j]);
            assert(field.cell(cells[j]) == TetriminoType::NONE);
        }
    }
}

/// A cell left or right of the grid (such as column -1) is reported as a
/// wall violation, one below the bottom row (such as row `ROWS`) as a floor
/// violation, and one on a locked block as an overlap, whatever the other
/// cells are.
pub proof fn lemma_each_cause_is_reported(field: Playfield, cells: Seq<Point>, k: int)
    requires
        0 <= k < cells.len(),
    ensures
        hits_wall(cells[k]) ==> field.collisions(cells).wall,
        hits_floor(cells[k]) ==> field.collisions(cells).floor,
        field.occupied(cells[k]) ==> field.collisions(cells).mino,
{
}

/// When one cell lies beside the grid and another on a locked block, both
/// violations are reported together, not just one of them.
pub proof fn lemma_wall_and_overlap_reported_together(
    field: Playfield,
    cells: Seq<Point>,
    k: int,
    m: int,
)
    requires
        0 <= k < cells.len(),
        0 <= m < cells.len(),
        hits_wall(cells[k]),
        field.occupied(cells[m]),
    ensures
        field.collisions(cells).wall && field.collisions(cells).mino,
{
    lemma_each_cause_is_reported(field, cells, k);
    lemma_each_cause_is_reported(field, cells, m);
}

/// Two collision tests of the same cells against the same playfield give
/// the same result: the test depends on nothing else.
pub proof fn lemma_collision_test_repeatable(
    field: Playfield,
    cells: Seq<Point>,
    first: CollisionResult,
    second: CollisionResult,
)
    requires
        first == CollisionResult::from_flags(field.collisions(cells)),
        second == CollisionResult::from_flags(field.collisions(cells)),
    ensures
        first == second,
        first@ == second@,
{
}

} // verus!
