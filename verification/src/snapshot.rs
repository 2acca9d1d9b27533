//! What a front end is shown of a game.

use vstd::prelude::*;
use crate::active::ActivePiece;
use crate::board::Board;
use crate::motion::{landed, lemma_stands_on_grid, stands, Pose};
use crate::piece::{Point, Rotation};
use crate::player::Player;
use crate::settings::GameSettings;
use crate::shape::{shape_points, spawn_blocks};
use crate::stats::PlayerStats;
use crate::versus::Versus;

verus! {

/// The totals of a player as they are shown, with the garbage that is
/// pending against the player. Time is in microseconds.
#[derive(Clone, Copy, Debug, PartialEq, Eq, Structural)]
pub struct PlayerStatsView {
    pub time_us: u64,
    pub pieces: u32,
    pub keys: u32,
    pub attack: u32,
    pub finesse: u32,
    pub lines_sent: u32,
    pub pending_garbage: u32,
}

/// What is shown of one player.
#[derive(Debug)]
pub struct PlayerView {
    /// The visible rows, the floor first, ten cells to a row.
    pub field: Vec<u8>,
    /// The cells of the piece in play that are in view.
    pub active: Vec<Point>,
    pub active_color: u8,
    pub active_piece: u8,
    pub active_rotation: String,
    /// The cells in view of the piece where it would land; empty where
    /// the ghost is switched off.
    pub ghost_piece: Vec<Point>,
    pub hold: Option<u8>,
    pub hold_blocks: Option<Vec<Point>>,
    pub hold_color_id: Option<u8>,
    pub next: Vec<u8>,
    pub next_blocks: Vec<Vec<Point>>,
    pub topped_out: bool,
    pub stats: PlayerStatsView,
}

/// What is shown of a game.
#[derive(Debug)]
pub struct FrameView {
    pub players: Vec<PlayerView>,
    pub settings: GameSettings,
}

/// A cell is in view: on the grid and in a visible row.
pub open spec fn in_view(x: int, y: int) -> bool {
    0 <= x < 10 && 0 <= y < 20
}

/// The cells in view among the first `n` cells of a shape placed at
/// `(x, y)`, as places on the board, in the order of the shape.
pub open spec fn cells_in_view(pts: Seq<Point>, x: int, y: int, n: int) -> Seq<Point>
    decreases n,
{
    if n <= 0 {
        Seq::empty()
    } else {
        let rest = cells_in_view(pts, x, y, n - 1);
        let c = pts[n - 1];
        if in_view(x + c.x, y + c.y) {
            rest.push(Point { x: (x + c.x) as i8, y: (y + c.y) as i8 })
        } else {
            rest
        }
    }
}

/// The visible rows of a grid in one sequence, the floor first.
pub open spec fn field_cells(g: Seq<Seq<u8>>) -> Seq<u8> {
    Seq::new(200, |i: int| g[i / 10][i % 10])
}

impl PlayerStatsView {
    /// These are the totals `s` with the pending garbage `pending`.
    pub open spec fn shows(self, s: PlayerStats, pending: u32) -> bool {
        self == (PlayerStatsView {
            time_us: s.time_us,
            pieces: s.pieces,
            keys: s.keys,
            attack: s.attack,
            finesse: s.finesse,
            lines_sent: s.lines_sent,
            pending_garbage: pending,
        })
    }
}

impl PlayerView {
    /// This is what is shown of the player `p` with the totals `s`.
    pub open spec fn shows(self, p: Player, s: PlayerStats, ghost_enabled: bool) -> bool {
        let piece = p.active.piece;
        &&& self.field@ == field_cells(p.board@)
        &&& self.active@ == cells_in_view(
            p.active.points(),
            p.active.x as int,
            p.active.y as int,
            4,
        )
        &&& self.active_color == piece.color()
        &&& self.active_piece == piece.color()
        &&& self.active_rotation@ == p.active.rotation.name_spec()
        &&& self.ghost_piece@ == (if ghost_enabled {
            cells_in_view(
                p.active.points(),
                p.active.x as int,
                landed(p.board@, piece, p.active.pose()).y,
                4,
            )
        } else {
            Seq::empty()
        })
        &&& self.hold == (match p.hold {
            Some(h) => Some(h.color()),
            None => None,
        })
        &&& self.hold_color_id == self.hold
        &&& match p.hold {
            Some(h) => self.hold_blocks is Some && self.hold_blocks->0@ == shape_points(
                h,
                Rotation::Spawn,
            ),
            None => self.hold_blocks is None,
        }
        &&& self.next@.len() == p.queue@.len()
        &&& self.next_blocks@.len() == p.queue@.len()
        &&& forall|i: int|
            0 <= i < p.queue@.len() ==> (#[trigger] self.next@[i]) == p.queue@[i].color()
        &&& forall|i: int|
            0 <= i < p.queue@.len() ==> (#[trigger] self.next_blocks@[i])@ == shape_points(
                p.queue@[i],
                Rotation::Spawn,
            )
        &&& self.topped_out == p.topped_out
        &&& self.stats.shows(s, p.pending_garbage)
    }
}

/// The four cells of a shape as a list.
fn points_of(blocks: &[Point; 4]) -> (v: Vec<Point>)
    ensures
        v@ == blocks@,
{
    let v = vec![blocks[0], blocks[1], blocks[2], blocks[3]];
    assert(v@ =~= blocks@);
    v
}

/// The cells in view of a shape placed at `(x, y)`.
fn visible_cells(blocks: &[Point; 4], x: i32, y: i32) -> (v: Vec<Point>)
    ensures
        v@ == cells_in_view(blocks@, x as int, y as int, 4),
{
    let mut v: Vec<Point> = Vec::new();
    let mut i: usize = 0;
    while i < 4
        invariant
            i <= 4,
            v@ == cells_in_view(blocks@, x as int, y as int, i as int),
        decreases 4 - i,
    {
        let b = blocks[i];
        let cx: i64 = x as i64 + b.x as i64;
        let cy: i64 = y as i64 + b.y as i64;
        if 0 <= cx && cx < 10 && 0 <= cy && cy < 20 {
            v.push(Point { x: cx as i8, y: cy as i8 });
        }
        i += 1;
    }
    v
}

/// The visible rows of a board in one list, the floor first.
fn field_of(board: &Board) -> (field: Vec<u8>)
    ensures
        field@ == field_cells(board@),
{
    let mut field: Vec<u8> = Vec::new();
    let mut y: usize = 0;
    while y < 20
        invariant
            y <= 20,
            field@.len() == 10 * y,
            forall|i: int| 0 <= i < 10 * y ==> #[trigger] field@[i] == board@[i / 10][i % 10],
        decreases 20 - y,
    {
        let mut x: usize = 0;
        while x < 10
            invariant
                x <= 10,
                y < 20,
                field@.len() == 10 * y + x,
                forall|i: int|
                    0 <= i < 10 * y + x ==> #[trigger] field@[i] == board@[i / 10][i % 10],
            decreases 10 - x,
        {
            field.push(board.cells[y][x]);
            x += 1;
        }
        y += 1;
    }
    assert(field@ =~= field_cells(board@));
    field
}

impl Player {
    /// The cell of the board in column `col` of row `row`.
    pub fn cells(&self, row: usize, col: usize) -> (c: u8)
        requires
            row < 40,
            col < 10,
        ensures
            c == self.board@[row as int][col as int],
    {
        self.board.cells[row][col]
    }

    /// The cells in view of the piece in play where it would land if it
    /// were dropped.
    pub fn ghost_cells(&self) -> (v: Vec<Point>)
        ensures
            v@ == cells_in_view(
                self.active.points(),
                self.active.x as int,
                landed(self.board@, self.active.piece, self.active.pose()).y,
                4,
            ),
    {
        let ghost g = self.board@;
        let ghost piece = self.active.piece;
        let ghost pose = self.active.pose();
        let mut shadow = self.active;
        loop
            invariant
                shadow == (ActivePiece { y: shadow.y, ..self.active }),
                landed(g, piece, pose) == landed(g, piece, shadow.pose()),
                g == self.board@,
                piece == self.active.piece,
                pose == self.active.pose(),
            ensures
                shadow == (ActivePiece { y: shadow.y, ..self.active }),
                shadow.pose() == landed(g, piece, pose),
            decreases shadow.y,
        {
            if self.board.collision_after(&shadow, shadow.rotation, 0, -1) {
                break ;
            }
            proof {
                lemma_stands_on_grid(g, piece, Pose { y: shadow.y - 1, ..shadow.pose() });
            }
            shadow.y = shadow.y - 1;
            if shadow.y <= 0 {
                proof {
                    if stands(g, piece, Pose { y: shadow.y - 1, ..shadow.pose() }) {
                        lemma_stands_on_grid(g, piece, Pose { y: shadow.y - 1, ..shadow.pose() });
                    }
                }
                break ;
            }
        }
        let blocks = shadow.blocks();
        visible_cells(&blocks, shadow.x, shadow.y)
    }

    /// What is shown of the player.
    pub fn view_with(&self, stats: &PlayerStats, ghost_enabled: bool) -> (v: PlayerView)
        ensures
            v.shows(*self, *stats, ghost_enabled),
    {
        let blocks = self.active.blocks();
        let active = visible_cells(&blocks, self.active.x, self.active.y);
        let ghost_piece = if ghost_enabled {
            self.ghost_cells()
        } else {
            Vec::new()
        };
        let mut next: Vec<u8> = Vec::new();
        let mut next_blocks: Vec<Vec<Point>> = Vec::new();
        let mut i: usize = 0;
        while i < self.queue.len()
            invariant
                i <= self.queue@.len(),
                next@.len() == i,
                next_blocks@.len() == i,
                forall|k: int| 0 <= k < i ==> (#[trigger] next@[k]) == self.queue@[k].color(),
                forall|k: int|
                    0 <= k < i ==> (#[trigger] next_blocks@[k])@ == shape_points(
                        self.queue@[k],
                        Rotation::Spawn,
                    ),
            decreases self.queue@.len() - i,
        {
            let piece = self.queue[i];
            next.push(piece.color_id());
            let shape = spawn_blocks(piece);
            next_blocks.push(points_of(&shape));
            i += 1;
        }
        let hold = match self.hold {
            Some(h) => Some(h.color_id()),
            None => None,
        };
        let hold_blocks = match self.hold {
            Some(h) => {
                let shape = spawn_blocks(h);
                Some(points_of(&shape))
            },
            None => None,
        };
        PlayerView {
            field: field_of(&self.board),
            active,
            active_color: self.active.piece.color_id(),
            active_piece: self.active.piece.color_id(),
            active_rotation: self.active.rotation.name().to_owned(),
            ghost_piece,
            hold,
            hold_blocks,
            hold_color_id: hold,
            next,
            next_blocks,
            topped_out: self.topped_out,
            stats: PlayerStatsView {
                time_us: stats.time_us,
                pieces: stats.pieces,
                keys: stats.keys,
                attack: stats.attack,
                finesse: stats.finesse,
                lines_sent: stats.lines_sent,
                pending_garbage: self.pending_garbage,
            },
        }
    }
}

impl Versus {
    /// The cells in view of the piece of player `idx` where it would land
    /// if it were dropped.
    pub fn ghost(&self, idx: usize) -> (v: Vec<Point>)
        requires
            idx < 2,
        ensures
            v@ == cells_in_view(
                self.players[idx as int].active.points(),
                self.players[idx as int].active.x as int,
                landed(
                    self.players[idx as int].board@,
                    self.players[idx as int].active.piece,
                    self.players[idx as int].active.pose(),
                ).y,
                4,
            ),
    {
        self.players[idx].ghost_cells()
    }

    /// What is shown of the game: both players and the settings.
    pub fn snapshot(&self) -> (frame: FrameView)
        ensures
            frame.players@.len() == 2,
            forall|i: int|
                0 <= i < 2 ==> (#[trigger] frame.players@[i]).shows(
                    self.players[i],
                    self.stats[i],
                    self.settings.ghost_enabled,
                ),
            frame.settings == self.settings,
    {
        let mut players: Vec<PlayerView> = Vec::new();
        let first = self.players[0].view_with(&self.stats[0], self.settings.ghost_enabled);
        players.push(first);
        let second = self.players[1].view_with(&self.stats[1], self.settings.ghost_enabled);
        players.push(second);
        FrameView { players, settings: self.settings }
    }
}

} // verus!
