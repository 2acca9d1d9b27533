//! The built-in stand-in for a second player: at a steady pace it drops
//! the piece towards a column where the stack is lowest. It makes no claim
//! to play well.

use vstd::prelude::*;
use vstd::seq_lib::*;
use crate::board::Board;
use crate::input::InputFrame;
use crate::piece::Tetromino;
use crate::player::Player;
use crate::rng::shuffle;

verus! {

/// How fast the stand-in plays, in thousandths of a piece per second.
#[derive(Clone, Copy, Debug, PartialEq, Eq, Structural)]
pub struct BotConfig {
    pub pps_milli: u32,
}

impl BotConfig {
    /// The time between two pieces in microseconds. A pace below a tenth of
    /// a piece per second counts as a tenth.
    pub open spec fn piece_time(self) -> int {
        1_000_000_000int / (if self.pps_milli < 100 {
            100int
        } else {
            self.pps_milli as int
        })
    }

    /// The time between two pieces in microseconds.
    pub fn piece_time_us(&self) -> (t: u64)
        ensures
            t == self.piece_time(),
    {
        let pace: u64 = if self.pps_milli < 100 {
            100
        } else {
            self.pps_milli as u64
        };
        1_000_000_000 / pace
    }
}

impl Default for BotConfig {
    fn default() -> (c: BotConfig)
        ensures
            c.pps_milli == 1800,
    {
        BotConfig { pps_milli: 1800 }
    }
}

/// The state of the stand-in: its pace and the time since its last piece,
/// in microseconds.
#[derive(Clone, Copy, Debug, PartialEq, Eq, Structural)]
pub struct BotDriver {
    pub config: BotConfig,
    pub think_timer: u64,
}

/// One more than the highest filled row of column `x` below row `n`; 0 if
/// there is none.
pub open spec fn column_height_below(g: Seq<Seq<u8>>, x: int, n: int) -> int
    decreases n,
{
    if n <= 0 {
        0
    } else if g[n - 1][x] != 0 {
        n
    } else {
        column_height_below(g, x, n - 1)
    }
}

/// The height of column `x`.
pub open spec fn column_height(g: Seq<Seq<u8>>, x: int) -> int {
    column_height_below(g, x, 40)
}

/// `i` is the first place in the list of a column that is as low as any in
/// the list.
pub open spec fn is_first_lowest(g: Seq<Seq<u8>>, columns: Seq<i32>, i: int) -> bool {
    &&& 0 <= i < columns.len()
    &&& forall|j: int|
        0 <= j < columns.len() ==> column_height(g, columns[i] as int) <= column_height(
            g,
            #[trigger] columns[j] as int,
        )
    &&& forall|j: int|
        0 <= j < i ==> column_height(g, columns[i] as int) < column_height(
            g,
            #[trigger] columns[j] as int,
        )
}

/// The keys that send the piece towards column `col`, where the stack is
/// `height` high: hard drop, the shift key on the side of the column as
/// seen from column 4, and a clockwise turn for an `I` that would
/// otherwise reach the top of the grid.
pub open spec fn plan_for(col: int, height: int, piece: Tetromino) -> InputFrame {
    InputFrame {
        left: col < 4,
        right: col > 4,
        soft_drop: false,
        hard_drop: true,
        rotate_ccw: false,
        rotate_cw: piece == Tetromino::I && height + 4 > 38,
        rotate_180: false,
        hold: false,
    }
}

/// The height of column `x`.
pub fn height_of_column(board: &Board, x: usize) -> (h: usize)
    requires
        x < 10,
    ensures
        h == column_height(board@, x as int),
        h <= 40,
{
    let mut y: usize = 40;
    while y > 0
        invariant
            y <= 40,
            x < 10,
            column_height(board@, x as int) == column_height_below(board@, x as int, y as int),
        decreases y,
    {
        if board.cells[y - 1][x] != 0 {
            assert(board@[y - 1][x as int] != 0);
            return y;
        }
        assert(board@[y - 1][x as int] == 0);
        y -= 1;
    }
    0
}

/// The place in the list of the first column that is as low as any in it;
/// nothing for an empty list.
pub fn lowest_column(board: &Board, columns: &Vec<i32>) -> (r: Option<usize>)
    requires
        forall|j: int| 0 <= j < columns@.len() ==> 0 <= #[trigger] columns@[j] < 10,
    ensures
        r is None <==> columns@.len() == 0,
        r is Some ==> is_first_lowest(board@, columns@, r->0 as int),
{
    let mut best: Option<usize> = None;
    let mut best_height: usize = usize::MAX;
    let mut k: usize = 0;
    while k < columns.len()
        invariant
            k <= columns@.len(),
            forall|j: int| 0 <= j < columns@.len() ==> 0 <= #[trigger] columns@[j] < 10,
            best is None <==> k == 0,
            best is None ==> best_height == usize::MAX,
            best is Some ==> {
                &&& best->0 < k
                &&& best_height == column_height(board@, columns@[best->0 as int] as int)
                &&& forall|j: int|
                    0 <= j < k ==> best_height <= column_height(
                        board@,
                        #[trigger] columns@[j] as int,
                    )
                &&& forall|j: int|
                    0 <= j < best->0 ==> best_height < column_height(
                        board@,
                        #[trigger] columns@[j] as int,
                    )
            },
        decreases columns@.len() - k,
    {
        let col = columns[k];
        let height = height_of_column(board, col as usize);
        if height < best_height {
            best_height = height;
            best = Some(k);
        }
        k += 1;
    }
    best
}

/// The keys for a piece on a board: towards a column where the stack is
/// lowest. Among several such columns chance decides.
pub fn find_safe_column(board: &Board, piece: Tetromino) -> (r: Option<InputFrame>)
    ensures
        r is Some,
        exists|col: int|
            {
                &&& 0 <= col < 10
                &&& forall|x: int|
                    0 <= x < 10 ==> column_height(board@, col) <= #[trigger] column_height(
                        board@,
                        x,
                    )
                &&& r->0 == #[trigger] plan_for(col, column_height(board@, col), piece)
            },
{
    let mut columns: Vec<i32> = vec![0, 1, 2, 3, 4, 5, 6, 7, 8, 9];
    let ghost ordered = columns@;
    shuffle(&mut columns);
    proof {
        broadcast use {to_multiset_len, to_multiset_contains};

        assert(columns@.to_multiset().len() == ordered.to_multiset().len());
        assert forall|j: int| 0 <= j < columns@.len() implies 0 <= #[trigger] columns@[j] < 10 by {
            assert(columns@.contains(columns@[j]));
            assert(ordered.to_multiset().count(columns@[j]) > 0);
            assert(ordered.contains(columns@[j]));
        }
    }
    match lowest_column(board, &columns) {
        Some(i) => {
            let col = columns[i];
            let height = height_of_column(board, col as usize);
            proof {
                broadcast use to_multiset_contains;

                assert forall|x: int| 0 <= x < 10 implies column_height(board@, col as int)
                    <= #[trigger] column_height(board@, x) by {
                    assert(ordered[x] == x);
                    assert(ordered.contains(x as i32));
                    assert(columns@.to_multiset().count(x as i32) > 0);
                    assert(columns@.contains(x as i32));
                    let j = choose|j: int| 0 <= j < columns@.len() && columns@[j] == x as i32;
                    assert(column_height(board@, columns@[i as int] as int) <= column_height(
                        board@,
                        columns@[j] as int,
                    ));
                }
            }
            let frame = InputFrame {
                left: col < 4,
                right: col > 4,
                soft_drop: false,
                hard_drop: true,
                rotate_ccw: false,
                rotate_cw: piece == Tetromino::I && height + 4 > 38,
                rotate_180: false,
                hold: false,
            };
            assert(frame == plan_for(col as int, column_height(board@, col as int), piece));
            Some(frame)
        },
        None => None,
    }
}

impl BotDriver {
    /// The stand-in after `dt` microseconds passed, with the keys it holds
    /// for the piece on the grid. Until the time for a piece is up no key
    /// is held; once it is, the timer starts again and the keys send the
    /// piece towards a column where the stack is lowest.
    pub open spec fn updated(
        self,
        pre: BotDriver,
        g: Seq<Seq<u8>>,
        piece: Tetromino,
        dt: int,
        frame: InputFrame,
    ) -> bool {
        &&& self.config == pre.config
        &&& if pre.think_timer + dt < pre.config.piece_time() {
            &&& frame == InputFrame::idle()
            &&& self.think_timer == pre.think_timer + dt
        } else {
            &&& self.think_timer == 0
            &&& exists|col: int|
                {
                    &&& 0 <= col < 10
                    &&& forall|x: int|
                        0 <= x < 10 ==> column_height(g, col) <= #[trigger] column_height(g, x)
                    &&& frame == #[trigger] plan_for(col, column_height(g, col), piece)
                }
        }
    }

    /// A stand-in that has not waited yet.
    pub fn new(config: BotConfig) -> (d: BotDriver)
        ensures
            d == (BotDriver { config, think_timer: 0 }),
    {
        BotDriver { config, think_timer: 0 }
    }

    /// Lets `dt_us` microseconds pass. Once the time for a piece is up the
    /// timer starts again and the keys for the player's piece come back;
    /// until then no key is held.
    pub fn update(&mut self, player: &Player, dt_us: u32) -> (frame: InputFrame)
        ensures
            final(self).updated(
                *old(self),
                player.board@,
                player.active.piece,
                dt_us as int,
                frame,
            ),
    {
        let mut frame = InputFrame {
            left: false,
            right: false,
            soft_drop: false,
            hard_drop: false,
            rotate_ccw: false,
            rotate_cw: false,
            rotate_180: false,
            hold: false,
        };
        self.think_timer = self.think_timer.saturating_add(dt_us as u64);
        let piece_time = self.config.piece_time_us();
        if self.think_timer >= piece_time {
            self.think_timer = 0;
            let best = find_safe_column(&player.board, player.active.piece);
            if let Some(plan) = best {
                frame = plan;
            } else {
                frame.hard_drop = true;
            }
        }
        frame
    }
}

} // verus!
