//! The playing field: ten columns by forty rows of colour codes.
//!
//! Row 0 is the floor and `y` grows upward. Rows 0 to 19 are visible and
//! solid; rows 20 to 39 are a buffer that never blocks a piece, though cells
//! can be written there and fall into view when lines clear.

use vstd::prelude::*;
use crate::active::ActivePiece;
use crate::piece::{Point, Rotation, Tetromino};
use crate::rng::random_below;
use crate::shape::{shape_blocks, shape_points};

verus! {

/// The number of columns.
pub const WIDTH: usize = 10;

/// The number of rows that are shown and that block a piece.
pub const VISIBLE_HEIGHT: usize = 20;

/// The number of rows above the visible ones.
pub const BUFFER_HEIGHT: usize = 20;

/// The number of rows in all.
pub const TOTAL_HEIGHT: usize = 40;

/// The colour code of a garbage cell.
pub const GARBAGE: u8 = 8;

/// Forty rows of ten cells, row 0 first.
#[derive(Clone, Copy, Debug)]
pub struct Board {
    pub cells: [[u8; WIDTH]; TOTAL_HEIGHT],
}

impl View for Board {
    type V = Seq<Seq<u8>>;

    open spec fn view(&self) -> Seq<Seq<u8>> {
        Seq::new(40, |y: int| self.cells[y]@)
    }
}

/// A grid has forty rows of ten cells.
pub open spec fn grid_shaped(g: Seq<Seq<u8>>) -> bool {
    &&& g.len() == 40
    &&& forall|y: int| 0 <= y < 40 ==> (#[trigger] g[y]).len() == 10
}

/// Every cell holds a known colour: 0 for empty, 1 to 7 for the pieces, 8
/// for garbage.
pub open spec fn colors_valid(g: Seq<Seq<u8>>) -> bool {
    forall|x: int, y: int| 0 <= x < 10 && 0 <= y < 40 ==> (#[trigger] g[y][x]) <= 8
}

/// The cell lies on the grid.
pub open spec fn in_bounds(x: int, y: int) -> bool {
    0 <= x < 10 && 0 <= y < 40
}

/// A cell blocks a piece if it lies outside the grid, or in a visible row
/// and is not empty.
pub open spec fn occupied(g: Seq<Seq<u8>>, x: int, y: int) -> bool {
    !in_bounds(x, y) || (y < 20 && g[y][x] != 0)
}

/// Some cell of the shape, placed at `(x, y)`, is blocked.
pub open spec fn any_occupied(g: Seq<Seq<u8>>, pts: Seq<Point>, x: int, y: int) -> bool {
    exists|i: int| 0 <= i < pts.len() && #[trigger] occupied(g, x + pts[i].x, y + pts[i].y)
}

/// The piece, turned to `rot` and placed at `(x, y)`, is blocked.
pub open spec fn collides(
    g: Seq<Seq<u8>>,
    piece: Tetromino,
    rot: Rotation,
    x: int,
    y: int,
) -> bool {
    any_occupied(g, shape_points(piece, rot), x, y)
}

/// One of the first `n` cells of the shape, placed at `(x, y)`, lies on
/// `(cx, cy)`.
pub open spec fn covers(pts: Seq<Point>, n: int, x: int, y: int, cx: int, cy: int) -> bool {
    exists|i: int| 0 <= i < n && #[trigger] pts[i].x + x == cx && pts[i].y + y == cy
}

/// The grid after the shape at `(x, y)` was written in `color`: the cells
/// under the shape hold the colour and every other cell is as before. Cells
/// of the shape outside the grid are dropped.
pub open spec fn with_cells(g: Seq<Seq<u8>>, pts: Seq<Point>, x: int, y: int, color: u8) -> Seq<
    Seq<u8>,
> {
    Seq::new(
        40,
        |cy: int|
            Seq::new(
                10,
                |cx: int|
                    if covers(pts, pts.len() as int, x, y, cx, cy) {
                        color
                    } else {
                        g[cy][cx]
                    },
            ),
    )
}

/// A row of ten empty cells.
pub open spec fn empty_row() -> Seq<u8> {
    Seq::new(10, |x: int| 0u8)
}

/// A grid of empty rows.
pub open spec fn empty_grid() -> Seq<Seq<u8>> {
    Seq::new(40, |y: int| empty_row())
}

/// No cell of the row is empty.
pub open spec fn row_full(row: Seq<u8>) -> bool {
    forall|x: int| 0 <= x < 10 ==> row[x] != 0
}

/// Every cell of the row is empty.
pub open spec fn row_empty(row: Seq<u8>) -> bool {
    forall|x: int| 0 <= x < 10 ==> row[x] == 0
}

/// Some cell of column `x` above row `y` is filled.
pub open spec fn filled_above(g: Seq<Seq<u8>>, x: int, y: int) -> bool {
    exists|k: int| y < k < 40 && #[trigger] g[k][x] != 0
}

/// A hole is an empty cell with a filled cell somewhere above it in its
/// column.
pub open spec fn is_hole(g: Seq<Seq<u8>>, x: int, y: int) -> bool {
    g[y][x] == 0 && filled_above(g, x, y)
}

/// The number of holes of column `x` in the rows from `y` up.
pub open spec fn column_holes(g: Seq<Seq<u8>>, x: int, y: int) -> int
    decreases 40 - y,
{
    if y >= 40 {
        0
    } else {
        column_holes(g, x, y + 1) + (if is_hole(g, x, y) {
            1int
        } else {
            0int
        })
    }
}

/// The number of holes in the first `n` columns.
pub open spec fn holes_in_columns(g: Seq<Seq<u8>>, n: int) -> int
    decreases n,
{
    if n <= 0 {
        0
    } else {
        holes_in_columns(g, n - 1) + column_holes(g, n - 1, 0)
    }
}

/// The number of holes on the whole grid.
pub open spec fn holes(g: Seq<Seq<u8>>) -> int {
    holes_in_columns(g, 10)
}

/// One more than the highest row below `n` that is not empty; 0 if there is
/// none.
pub open spec fn height_below(g: Seq<Seq<u8>>, n: int) -> int
    decreases n,
{
    if n <= 0 {
        0
    } else if !row_empty(g[n - 1]) {
        n
    } else {
        height_below(g, n - 1)
    }
}

/// The height of the stack: one more than the highest row that is not
/// empty.
pub open spec fn stack_height(g: Seq<Seq<u8>>) -> int {
    height_below(g, 40)
}

/// No visible row holds anything.
pub open spec fn visible_clear(g: Seq<Seq<u8>>) -> bool {
    forall|y: int| 0 <= y < 20 ==> row_empty(#[trigger] g[y])
}

/// The lowest row from `y` up, below the top of the grid, at which the
/// shape placed in column `x` is free of the board.
pub open spec fn lowest_fit_from(g: Seq<Seq<u8>>, pts: Seq<Point>, x: int, y: int) -> Option<int>
    decreases 40 - y,
{
    if y >= 40 {
        None
    } else if !any_occupied(g, pts, x, y) {
        Some(y)
    } else {
        lowest_fit_from(g, pts, x, y + 1)
    }
}

/// The lowest row of the grid at which the shape placed in column `x` is
/// free of the board.
pub open spec fn lowest_fit(g: Seq<Seq<u8>>, pts: Seq<Point>, x: int) -> Option<int> {
    lowest_fit_from(g, pts, x, 0)
}

/// A garbage row: garbage in every column but the hole.
pub open spec fn garbage_row(hole: int) -> Seq<u8> {
    Seq::new(
        10,
        |x: int|
            if x == hole {
                0u8
            } else {
                GARBAGE
            },
    )
}

/// The grid after `n` garbage rows with the same hole came in from below:
/// every row moved up by `n`, and what passed the top is lost.
pub open spec fn with_garbage(g: Seq<Seq<u8>>, n: int, hole: int) -> Seq<Seq<u8>> {
    Seq::new(
        40,
        |y: int|
            if y < n {
                garbage_row(hole)
            } else {
                g[y - n]
            },
    )
}

impl Board {
    /// The colours on the board are all known ones.
    pub open spec fn wf(&self) -> bool {
        colors_valid(self@)
    }

    /// An empty board.
    pub fn new() -> (b: Board)
        ensures
            b@ == empty_grid(),
            b.wf(),
    {
        let b = Board { cells: [[0u8; 10]; 40] };
        assert(b@ =~~= empty_grid());
        b
    }

    /// Whether the cell at `(x, y)`, given with room to spare, blocks a
    /// piece.
    fn occupied_at(&self, x: i64, y: i64) -> (r: bool)
        ensures
            r == occupied(self@, x as int, y as int),
    {
        if x < 0 || x >= 10 {
            return true;
        }
        if y < 0 {
            return true;
        }
        if y >= 40 {
            return true;
        }
        if y >= 20 {
            return false;
        }
        self.cells[y as usize][x as usize] != 0
    }

    /// Whether the cell at `(x, y)` blocks a piece: it lies outside the
    /// grid, or in a visible row and is not empty.
    pub fn is_occupied(&self, x: i32, y: i32) -> (r: bool)
        ensures
            r == occupied(self@, x as int, y as int),
    {
        self.occupied_at(x as i64, y as i64)
    }

    /// Whether the shape placed at `(x, y)` lies on a blocked cell.
    fn blocks_collide(&self, blocks: &[Point; 4], x: i64, y: i64) -> (r: bool)
        requires
            -0x1_0000_0000 <= x <= 0x1_0000_0000,
            -0x1_0000_0000 <= y <= 0x1_0000_0000,
        ensures
            r == any_occupied(self@, blocks@, x as int, y as int),
    {
        let mut i: usize = 0;
        while i < 4
            invariant
                i <= 4,
                -0x1_0000_0000 <= x <= 0x1_0000_0000,
                -0x1_0000_0000 <= y <= 0x1_0000_0000,
                forall|j: int|
                    0 <= j < i ==> !#[trigger] occupied(
                        self@,
                        x + blocks@[j].x,
                        y + blocks@[j].y,
                    ),
            decreases 4 - i,
        {
            let b = blocks[i];
            if self.occupied_at(x + b.x as i64, y + b.y as i64) {
                return true;
            }
            i += 1;
        }
        false
    }

    /// Whether the piece would be blocked if it were turned to `rotation`
    /// and moved by `(dx, dy)`.
    pub fn collision_after(&self, ap: &ActivePiece, rotation: Rotation, dx: i32, dy: i32) -> (r:
        bool)
        ensures
            r == collides(self@, ap.piece, rotation, ap.x + dx, ap.y + dy),
    {
        let blocks = shape_blocks(ap.piece, rotation);
        self.blocks_collide(&blocks, ap.x as i64 + dx as i64, ap.y as i64 + dy as i64)
    }

    /// Whether the piece is blocked where it stands.
    pub fn collision(&self, ap: &ActivePiece) -> (r: bool)
        ensures
            r == collides(self@, ap.piece, ap.rotation, ap.x as int, ap.y as int),
    {
        self.collision_after(ap, ap.rotation, 0, 0)
    }

    /// Writes the shape at `(x, y)` to the board in the given colour. Cells
    /// of the shape outside the grid are dropped; no other cell changes.
    pub fn lock_piece(&mut self, x: i32, y: i32, blocks: &[Point; 4], color: u8)
        ensures
            final(self)@ == with_cells(old(self)@, blocks@, x as int, y as int, color),
            old(self).wf() && color <= 8 ==> final(self).wf(),
    {
        let mut i: usize = 0;
        while i < 4
            invariant
                i <= 4,
                forall|cx: int, cy: int|
                    0 <= cx < 10 && 0 <= cy < 40 ==> #[trigger] self@[cy][cx] == (if covers(
                        blocks@,
                        i as int,
                        x as int,
                        y as int,
                        cx,
                        cy,
                    ) {
                        color
                    } else {
                        old(self)@[cy][cx]
                    }),
            decreases 4 - i,
        {
            let b = blocks[i];
            let px: i64 = x as i64 + b.x as i64;
            let py: i64 = y as i64 + b.y as i64;
            let ghost before = self@;
            if px >= 0 && px < 10 && py >= 0 && py < 40 {
                self.cells[py as usize][px as usize] = color;
            }
            assert forall|cx: int, cy: int|
                0 <= cx < 10 && 0 <= cy < 40 implies #[trigger] self@[cy][cx] == (if covers(
                blocks@,
                i + 1,
                x as int,
                y as int,
                cx,
                cy,
            ) {
                color
            } else {
                old(self)@[cy][cx]
            }) by {
                let hit = blocks@[i as int].x + x == cx && blocks@[i as int].y + y == cy;
                assert(self@[cy][cx] == if hit {
                    color
                } else {
                    before[cy][cx]
                });
                if covers(blocks@, i as int, x as int, y as int, cx, cy) {
                    let j = choose|j: int|
                        0 <= j < i && #[trigger] blocks@[j].x + x == cx && blocks@[j].y + y == cy;
                    assert(0 <= j < i + 1 && blocks@[j].x + x == cx && blocks@[j].y + y == cy);
                }
                if covers(blocks@, i + 1, x as int, y as int, cx, cy) && !hit {
                    let j = choose|j: int|
                        0 <= j < i + 1 && #[trigger] blocks@[j].x + x == cx && blocks@[j].y + y
                            == cy;
                    assert(0 <= j < i);
                }
            }
            i += 1;
        }
        assert(final(self)@ =~~= with_cells(old(self)@, blocks@, x as int, y as int, color));
    }

    fn row_is_full(&self, y: usize) -> (r: bool)
        requires
            y < 40,
        ensures
            r == row_full(self@[y as int]),
    {
        let mut x: usize = 0;
        while x < 10
            invariant
                x <= 10,
                y < 40,
                forall|k: int| 0 <= k < x ==> self@[y as int][k] != 0,
            decreases 10 - x,
        {
            if self.cells[y][x] == 0 {
                return false;
            }
            x += 1;
        }
        true
    }

    fn row_is_empty(&self, y: usize) -> (r: bool)
        requires
            y < 40,
        ensures
            r == row_empty(self@[y as int]),
    {
        let mut x: usize = 0;
        while x < 10
            invariant
                x <= 10,
                y < 40,
                forall|k: int| 0 <= k < x ==> self@[y as int][k] == 0,
            decreases 10 - x,
        {
            if self.cells[y][x] != 0 {
                return false;
            }
            x += 1;
        }
        true
    }

    /// Takes row `y` out and lets the rows above fall by one.
    fn remove_row(&mut self, y: usize)
        requires
            y < 40,
        ensures
            final(self)@ == without_row(old(self)@, y as int),
    {
        let mut pull: usize = y + 1;
        while pull < 40
            invariant
                y + 1 <= pull <= 40,
                forall|r: int|
                    0 <= r < 40 ==> #[trigger] self@[r] == (if r < y {
                        old(self)@[r]
                    } else if r < pull - 1 {
                        old(self)@[r + 1]
                    } else {
                        old(self)@[r]
                    }),
            decreases 40 - pull,
        {
            let ghost prev = self@;
            self.cells[pull - 1] = self.cells[pull];
            assert forall|r: int| 0 <= r < 40 implies #[trigger] self@[r] == (if r == pull - 1 {
                prev[pull as int]
            } else {
                prev[r]
            }) by {}
            pull += 1;
        }
        let ghost prev = self@;
        self.cells[39] = [0u8; 10];
        assert forall|r: int| 0 <= r < 40 implies #[trigger] self@[r] == (if r == 39 {
            empty_row()
        } else {
            prev[r]
        }) by {
            if r == 39 {
                assert(self@[39] =~= empty_row());
            }
        }
        assert(final(self)@ =~= without_row(old(self)@, y as int));
    }

    /// Clears the lines that are full, from the bottom up, and tells how
    /// many went.
    pub fn clear_lines(&mut self) -> (n: usize)
        ensures
            final(self)@ == cleared(old(self)@),
            n == cleared_count(old(self)@),
            n <= 40,
            forall|y: int| 0 <= y < 20 ==> !row_full(#[trigger] final(self)@[y]),
            old(self).wf() ==> final(self).wf(),
    {
        let ghost g = self@;
        let mut n: usize = 0;
        let mut y: usize = 0;
        let ghost mut j: int = 0;
        while y < 20
            invariant
                y <= 20,
                0 <= j <= 40,
                g.len() == 40,
                n == j - kept_rows(g, j).len(),
                kept_rows(g, j).len() <= y,
                j < 40 ==> y == kept_rows(g, j).len(),
                forall|r: int|
                    0 <= r < 40 ==> #[trigger] self@[r] == (if r < kept_rows(g, j).len() {
                        kept_rows(g, j)[r]
                    } else if r < kept_rows(g, j).len() + 40 - j {
                        g[r - kept_rows(g, j).len() + j]
                    } else {
                        empty_row()
                    }),
            decreases 60 - y - j,
        {
            proof {
                lemma_kept_rows(g, j);
            }
            let ghost kept = kept_rows(g, j);
            if self.row_is_full(y) {
                proof {
                    if j >= 40 {
                        assert(self@[y as int] == empty_row());
                        assert(self@[y as int][0] == 0);
                    }
                    assert(self@[y as int] == g[j]);
                    assert(kept_rows(g, j + 1) == kept);
                }
                n += 1;
                self.remove_row(y);
                proof {
                    j = j + 1;
                }
            } else {
                proof {
                    if j < 40 {
                        assert(self@[y as int] == g[j]);
                        assert(kept_rows(g, j + 1) == kept.push(g[j]));
                        j = j + 1;
                    }
                }
                y += 1;
            }
        }
        proof {
            lemma_kept_rest(g, j, 40);
            lemma_kept_rows(g, j);
            assert(final(self)@ =~= cleared(g));
            lemma_cleared(g);
        }
        n
    }

    /// The number of holes: empty cells with a filled cell above them.
    pub fn hole_count(&self) -> (n: usize)
        ensures
            n == holes(self@),
            n <= 400,
    {
        let mut n: usize = 0;
        let mut x: usize = 0;
        while x < 10
            invariant
                x <= 10,
                n == holes_in_columns(self@, x as int),
                n <= 40 * x,
            decreases 10 - x,
        {
            let mut found = false;
            let mut col: usize = 0;
            let mut y: usize = 40;
            while y > 0
                invariant
                    x < 10,
                    y <= 40,
                    col == column_holes(self@, x as int, y as int),
                    col <= 40 - y,
                    found == filled_above(self@, x as int, y as int - 1),
                decreases y,
            {
                y -= 1;
                if self.cells[y][x] != 0 {
                    assert(self@[y as int][x as int] != 0);
                    found = true;
                } else {
                    proof {
                        if filled_above(self@, x as int, y as int - 1) {
                            let k = choose|k: int|
                                y - 1 < k < 40 && #[trigger] self@[k][x as int] != 0;
                            assert(y < k < 40 && self@[k][x as int] != 0);
                        }
                    }
                    if found {
                        col += 1;
                    }
                }
            }
            n += col;
            x += 1;
        }
        n
    }

    /// The height of the stack: one more than the highest row that is not
    /// empty.
    pub fn max_height(&self) -> (h: usize)
        ensures
            h == stack_height(self@),
            h <= 40,
    {
        let mut y: usize = 40;
        while y > 0
            invariant
                y <= 40,
                stack_height(self@) == height_below(self@, y as int),
            decreases y,
        {
            if !self.row_is_empty(y - 1) {
                return y;
            }
            y -= 1;
        }
        0
    }

    /// Whether the visible rows hold nothing.
    pub fn visible_empty(&self) -> (r: bool)
        ensures
            r == visible_clear(self@),
    {
        let mut y: usize = 0;
        while y < 20
            invariant
                y <= 20,
                forall|k: int| 0 <= k < y ==> row_empty(#[trigger] self@[k]),
            decreases 20 - y,
        {
            if !self.row_is_empty(y) {
                return false;
            }
            y += 1;
        }
        true
    }

    /// The lowest row at which the shape, placed in column `x`, lies wholly
    /// on the grid and on no blocked cell. The rows are tried from the top
    /// down and the last that is free is the answer.
    pub fn lowest_drop_height(&self, x: i32, blocks: &[Point; 4]) -> (h: Option<i32>)
        ensures
            h is Some == lowest_fit(self@, blocks@, x as int) is Some,
            h is Some ==> h->0 as int == lowest_fit(self@, blocks@, x as int)->0,
            h is Some ==> 0 <= h->0 < 40,
    {
        let mut best: Option<i32> = None;
        let mut y: i32 = 39;
        while y >= 0
            invariant
                -1 <= y <= 39,
                best is Some == lowest_fit_from(self@, blocks@, x as int, y + 1) is Some,
                best is Some ==> best->0 as int == lowest_fit_from(
                    self@,
                    blocks@,
                    x as int,
                    y + 1,
                )->0,
                best is Some ==> 0 <= best->0 < 40,
            decreases y + 1,
        {
            if !self.blocks_collide(blocks, x as i64, y as i64) {
                best = Some(y);
            }
            y -= 1;
        }
        best
    }

    /// Pushes `lines` garbage rows with the hole in the given column in from
    /// below, and tells whether the stack now reaches above the visible
    /// rows.
    pub fn add_garbage_at(&mut self, lines: u32, hole: usize) -> (over: bool)
        requires
            hole < 10,
        ensures
            final(self)@ == with_garbage(old(self)@, lines as int, hole as int),
            over == (lines > 0 && stack_height(final(self)@) > 20),
            old(self).wf() ==> final(self).wf(),
    {
        if lines == 0 {
            assert(self@ =~= with_garbage(self@, 0, hole as int));
            return false;
        }
        let rows: u32 = if lines < 40 {
            lines
        } else {
            40
        };
        let mut row = [GARBAGE; 10];
        row[hole] = 0;
        assert(row@ =~= garbage_row(hole as int));
        let mut i: u32 = 0;
        while i < rows
            invariant
                i <= rows <= 40,
                row@ == garbage_row(hole as int),
                self@ == with_garbage(old(self)@, i as int, hole as int),
            decreases rows - i,
        {
            let ghost before = self@;
            let mut y: usize = 39;
            while y > 0
                invariant
                    y <= 39,
                    forall|r: int|
                        0 <= r < 40 ==> #[trigger] self@[r] == (if r > y {
                            before[r - 1]
                        } else {
                            before[r]
                        }),
                decreases y,
            {
                let ghost prev = self@;
                self.cells[y] = self.cells[y - 1];
                assert forall|r: int| 0 <= r < 40 implies #[trigger] self@[r] == (if r == y {
                    prev[y - 1]
                } else {
                    prev[r]
                }) by {}
                y -= 1;
            }
            let ghost prev = self@;
            self.cells[0] = row;
            assert forall|r: int| 0 <= r < 40 implies #[trigger] self@[r] == (if r == 0 {
                row@
            } else {
                prev[r]
            }) by {}
            i += 1;
            assert(self@ =~= with_garbage(old(self)@, i as int, hole as int));
        }
        assert(self@ =~= with_garbage(old(self)@, lines as int, hole as int));
        proof {
            if old(self).wf() {
                assert forall|cx: int, cy: int| 0 <= cx < 10 && 0 <= cy < 40 implies (
                #[trigger] self@[cy][cx]) <= 8 by {
                    if cy >= lines {
                        assert(self@[cy][cx] == old(self)@[cy - lines][cx]);
                    }
                }
            }
        }
        self.max_height() > 20
    }

    /// Pushes `lines` garbage rows in from below, all with their hole in
    /// one column drawn at random, and tells whether the stack now reaches
    /// above the visible rows. Nothing is drawn for no lines.
    pub fn add_garbage(&mut self, lines: u32) -> (over: bool)
        ensures
            exists|hole: int|
                0 <= hole < 10 && final(self)@ == #[trigger] with_garbage(
                    old(self)@,
                    lines as int,
                    hole,
                ),
            over == (lines > 0 && stack_height(final(self)@) > 20),
            old(self).wf() ==> final(self).wf(),
    {
        if lines == 0 {
            assert(self@ =~= with_garbage(self@, 0, 0));
            return false;
        }
        let hole = random_below(10);
        self.add_garbage_at(lines, hole)
    }
}

/// Once twenty rows have stayed, every row above stays too.
proof fn lemma_kept_rest(g: Seq<Seq<u8>>, j: int, k: int)
    requires
        0 <= j <= k <= 40,
        g.len() == 40,
        kept_rows(g, j).len() >= 20 || j == k,
    ensures
        kept_rows(g, k) == kept_rows(g, j) + g.subrange(j, k),
    decreases k - j,
{
    if k > j {
        lemma_kept_rest(g, j, k - 1);
        assert(kept_rows(g, j) + g.subrange(j, k) =~= (kept_rows(g, j) + g.subrange(j, k - 1)).push(
            g[k - 1],
        ));
    } else {
        assert(kept_rows(g, j) + g.subrange(j, k) =~= kept_rows(g, j));
    }
}

/// The rows that stay when lines clear, among the first `j` rows of the
/// grid, bottom first. Rows are taken from the bottom up; a full row is
/// removed as long as fewer than twenty rows below it have stayed, which is
/// when it comes to rest in the visible part.
pub open spec fn kept_rows(g: Seq<Seq<u8>>, j: int) -> Seq<Seq<u8>>
    decreases j,
{
    if j <= 0 {
        Seq::empty()
    } else {
        let below = kept_rows(g, j - 1);
        if below.len() < 20 && row_full(g[j - 1]) {
            below
        } else {
            below.push(g[j - 1])
        }
    }
}

/// The number of lines that clear.
pub open spec fn cleared_count(g: Seq<Seq<u8>>) -> int {
    40 - kept_rows(g, 40).len()
}

/// The grid after its lines cleared: the rows that stay, in their order,
/// and empty rows on top.
pub open spec fn cleared(g: Seq<Seq<u8>>) -> Seq<Seq<u8>> {
    Seq::new(
        40,
        |y: int|
            if y < kept_rows(g, 40).len() {
                kept_rows(g, 40)[y]
            } else {
                empty_row()
            },
    )
}

/// The grid with row `y` taken out: the rows above move down by one and an
/// empty row comes in at the top.
pub open spec fn without_row(g: Seq<Seq<u8>>, y: int) -> Seq<Seq<u8>> {
    Seq::new(
        40,
        |r: int|
            if r < y {
                g[r]
            } else if r < 39 {
                g[r + 1]
            } else {
                empty_row()
            },
    )
}

/// At most `j` rows stay among the first `j`; each is a row of the grid, in
/// the same order, and the first twenty of them are not full.
pub proof fn lemma_kept_rows(g: Seq<Seq<u8>>, j: int)
    requires
        0 <= j <= 40,
        g.len() == 40,
    ensures
        kept_rows(g, j).len() <= j,
        forall|i: int|
            0 <= i < kept_rows(g, j).len() && i < 20 ==> !row_full(#[trigger] kept_rows(g, j)[i]),
        forall|i: int|
            0 <= i < kept_rows(g, j).len() ==> exists|k: int|
                i <= k < j && #[trigger] kept_rows(g, j)[i] == g[k],
    decreases j,
{
    if j > 0 {
        lemma_kept_rows(g, j - 1);
        let below = kept_rows(g, j - 1);
        let now = kept_rows(g, j);
        assert forall|i: int| 0 <= i < now.len() implies exists|k: int|
            i <= k < j && #[trigger] now[i] == g[k] by {
            if i < below.len() {
                let k = choose|k: int| i <= k < j - 1 && below[i] == g[k];
                assert(i <= k < j && now[i] == g[k]);
            } else {
                assert(i <= j - 1 < j && now[i] == g[j - 1]);
            }
        }
    }
}

/// What clearing lines leaves behind: a grid of the same shape, no visible
/// row full, every row a row of the grid before or empty, and as many empty
/// rows on top as lines cleared; a grid without a full visible row is left
/// as it is.
pub proof fn lemma_cleared(g: Seq<Seq<u8>>)
    requires
        grid_shaped(g),
    ensures
        grid_shaped(cleared(g)),
        0 <= cleared_count(g) <= 40,
        forall|y: int| 0 <= y < 20 ==> !row_full(#[trigger] cleared(g)[y]),
        forall|y: int| 40 - cleared_count(g) <= y < 40 ==> #[trigger] cleared(g)[y] == empty_row(),
        forall|y: int|
            0 <= y < 40 - cleared_count(g) ==> exists|k: int|
                y <= k < 40 && #[trigger] cleared(g)[y] == g[k],
        colors_valid(g) ==> colors_valid(cleared(g)),
        (forall|y: int| 0 <= y < 20 ==> !row_full(#[trigger] g[y])) ==> cleared(g) == g,
{
    lemma_kept_rows(g, 40);
    let c = cleared(g);
    let kept = kept_rows(g, 40);
    assert forall|y: int| 0 <= y < 40 implies (#[trigger] c[y]).len() == 10 by {
        if y < kept.len() {
            let k = choose|k: int| y <= k < 40 && kept[y] == g[k];
            assert(c[y] == g[k]);
        }
    }
    assert forall|y: int| 0 <= y < 20 implies !row_full(#[trigger] c[y]) by {
        if y >= kept.len() {
            assert(c[y][0] == 0);
        }
    }
    assert forall|y: int| 0 <= y < 40 - cleared_count(g) implies exists|k: int|
        y <= k < 40 && #[trigger] c[y] == g[k] by {
        let k = choose|k: int| y <= k < 40 && kept[y] == g[k];
        assert(y <= k < 40 && c[y] == g[k]);
    }
    if colors_valid(g) {
        assert forall|x: int, y: int| 0 <= x < 10 && 0 <= y < 40 implies (#[trigger] c[y][x])
            <= 8 by {
            if y < kept.len() {
                let k = choose|k: int| y <= k < 40 && kept[y] == g[k];
                assert(c[y][x] == g[k][x]);
            }
        }
    }
    if forall|y: int| 0 <= y < 20 ==> !row_full(#[trigger] g[y]) {
        lemma_kept_all(g, 40);
        assert(c =~= g);
    }
}

/// Where no visible row is full, every row stays.
proof fn lemma_kept_all(g: Seq<Seq<u8>>, j: int)
    requires
        0 <= j <= 40,
        g.len() == 40,
        forall|y: int| 0 <= y < 20 ==> !row_full(#[trigger] g[y]),
    ensures
        kept_rows(g, j) == g.subrange(0, j),
    decreases j,
{
    if j > 0 {
        lemma_kept_all(g, j - 1);
        assert(kept_rows(g, j - 1).len() == j - 1);
        assert(g.subrange(0, j - 1).push(g[j - 1]) =~= g.subrange(0, j));
    } else {
        assert(kept_rows(g, j) =~= g.subrange(0, j));
    }
}

/// On a grid whose buffer rows are not full, clearing lines leaves the
/// rows that are not full, in their order.
pub proof fn lemma_cleared_keeps_rows(g: Seq<Seq<u8>>)
    requires
        g.len() == 40,
        forall|y: int| 20 <= y < 40 ==> !row_full(#[trigger] g[y]),
    ensures
        kept_rows(g, 40) == g.filter(|row: Seq<u8>| !row_full(row)),
        cleared_count(g) == 40 - g.filter(|row: Seq<u8>| !row_full(row)).len(),
{
    lemma_kept_filter(g, 40);
    assert(g.subrange(0, 40) =~= g);
}

/// Below a buffer without full rows, the rows that stay among the first
/// `j` are those that are not full.
proof fn lemma_kept_filter(g: Seq<Seq<u8>>, j: int)
    requires
        0 <= j <= 40,
        g.len() == 40,
        forall|y: int| 20 <= y < 40 ==> !row_full(#[trigger] g[y]),
    ensures
        kept_rows(g, j) == g.subrange(0, j).filter(|row: Seq<u8>| !row_full(row)),
    decreases j,
{
    reveal(Seq::filter);
    let keep = |row: Seq<u8>| !row_full(row);
    if j > 0 {
        lemma_kept_filter(g, j - 1);
        lemma_kept_rows(g, j - 1);
        let upto = g.subrange(0, j);
        assert(upto.drop_last() =~= g.subrange(0, j - 1));
        assert(upto.last() == g[j - 1]);
        assert(keep(g[j - 1]) == !row_full(g[j - 1]));
    } else {
        assert(g.subrange(0, j) =~= Seq::<Seq<u8>>::empty());
    }
}

/// What a lock writes: every cell of the shape that lies on the grid holds
/// the colour, and every cell of the grid that is not under the shape is
/// as it was.
pub proof fn lemma_locked_cells(g: Seq<Seq<u8>>, pts: Seq<Point>, x: int, y: int, color: u8)
    ensures
        grid_shaped(with_cells(g, pts, x, y, color)),
        forall|i: int|
            0 <= i < pts.len() && in_bounds(x + pts[i].x, y + pts[i].y) ==> with_cells(
                g,
                pts,
                x,
                y,
                color,
            )[y + pts[i].y][x + (#[trigger] pts[i]).x] == color,
        forall|cx: int, cy: int|
            in_bounds(cx, cy) && !covers(pts, pts.len() as int, x, y, cx, cy) ==> (
            #[trigger] with_cells(g, pts, x, y, color)[cy][cx]) == g[cy][cx],
{
    let w = with_cells(g, pts, x, y, color);
    assert forall|i: int| 0 <= i < pts.len() && in_bounds(x + pts[i].x, y + pts[i].y) implies w[y
        + pts[i].y][x + (#[trigger] pts[i]).x] == color by {
        assert(pts[i].x + x == x + pts[i].x && pts[i].y + y == y + pts[i].y);
        assert(covers(pts, pts.len() as int, x, y, x + pts[i].x, y + pts[i].y));
    }
}

} // verus!
