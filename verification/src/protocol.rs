//! The adapter for an outside bot that plays by placements.
//!
//! The bot is told how a player's game stands, and answers with the piece
//! it places and where. The protocol anchors a vertical `I` one column to
//! the right of where the engine does; the adapter makes up for it.

use vstd::prelude::*;
use crate::active::ActivePiece;
use crate::board::{collides, lowest_fit, Board};
use crate::motion::{stands, Pose};
use crate::piece::{cell_char, color_to_cell_char, Rotation, Tetromino};
use crate::player::Player;
use crate::shape::shape_points;
use crate::advance::lemma_lock_exchange_frame;
use crate::versus::Versus;

verus! {

/// A placement as the bot sends it: the piece, how it is turned, and the
/// protocol's anchor of it. A tag that the engine does not know comes as
/// nothing.
#[derive(Clone, Copy, Debug, PartialEq, Eq, Structural)]
pub struct Placement {
    pub piece: Option<Tetromino>,
    pub orientation: Option<Rotation>,
    pub x: i32,
    pub y: i32,
}

/// Why a request of the bot was turned down.
#[derive(Clone, Copy, Debug, PartialEq, Eq, Structural)]
pub enum MoveError {
    /// The index names neither player.
    InvalidPlayerIndex,
    /// The player is topped out.
    PlayerToppedOut,
    /// The placement names no piece that the engine knows.
    UnknownPiece,
    /// The placement names no orientation that the engine knows.
    UnknownOrientation,
    /// The piece is neither in play nor to be had by a hold.
    MoveNotAvailable,
    /// The piece cannot stand where the placement puts it, nor anywhere in
    /// that column.
    PlacementCollision,
}

impl MoveError {
    /// The error in words.
    pub open spec fn message_spec(self) -> Seq<char> {
        match self {
            MoveError::InvalidPlayerIndex => "invalid player index"@,
            MoveError::PlayerToppedOut => "player topped out"@,
            MoveError::UnknownPiece => "unknown piece in move"@,
            MoveError::UnknownOrientation => "unknown orientation in move"@,
            MoveError::MoveNotAvailable => "move piece not available"@,
            MoveError::PlacementCollision => "placement collides with board"@,
        }
    }

    /// The error in words.
    pub fn message(&self) -> (s: &'static str)
        ensures
            s@ == self.message_spec(),
    {
        match self {
            MoveError::InvalidPlayerIndex => "invalid player index",
            MoveError::PlayerToppedOut => "player topped out",
            MoveError::UnknownPiece => "unknown piece in move",
            MoveError::UnknownOrientation => "unknown orientation in move",
            MoveError::MoveNotAvailable => "move piece not available",
            MoveError::PlacementCollision => "placement collides with board",
        }
    }
}

/// What is known of a player's randomizer: what is left in its bag of
/// seven, or nothing.
#[derive(Debug)]
pub enum BagState {
    SevenBag(Vec<Tetromino>),
    Unknown,
}

/// How a player's game stands, as the bot is told at the start.
#[derive(Debug)]
pub struct StartInfo {
    pub hold: Option<Tetromino>,
    /// The piece in play followed by the queue.
    pub queue: Vec<Tetromino>,
    pub combo: u32,
    pub back_to_back: bool,
    /// The forty rows of the board from the floor up, each cell as its
    /// letter.
    pub board: Vec<Vec<Option<char>>>,
    pub randomizer: BagState,
}

/// What a placement led to.
#[derive(Clone, Copy, Debug, PartialEq, Eq, Structural)]
pub struct AppliedMoveResult {
    pub lines_cleared: usize,
    pub topped_out: bool,
    pub active_piece: Option<Tetromino>,
    pub new_queue_piece: Option<Tetromino>,
    pub combo: u32,
    pub back_to_back: bool,
}

/// The engine's column for the protocol's column `x`: one less for an `I`
/// that points right or is reversed, where one less can be had.
pub open spec fn engine_x(piece: Tetromino, rot: Rotation, x: i32) -> i32 {
    if piece == Tetromino::I && (rot == Rotation::Right || rot == Rotation::Reverse) && x
        > i32::MIN {
        (x - 1) as i32
    } else {
        x
    }
}

/// Where a placed piece comes to stand: where the placement puts it if it
/// is free there, and else at the lowest row of its column at which it is
/// free. Nothing if there is no such row.
pub open spec fn placed_pose(
    g: Seq<Seq<u8>>,
    piece: Tetromino,
    rot: Rotation,
    x: i32,
    y: i32,
) -> Option<Pose> {
    let at = Pose { rotation: rot, x: engine_x(piece, rot, x) as int, y: y as int };
    if stands(g, piece, at) {
        Some(at)
    } else {
        match lowest_fit(g, shape_points(piece, rot), at.x) {
            Some(h) => Some(Pose { y: h, ..at }),
            None => None,
        }
    }
}

impl StartInfo {
    /// This is how the player's game stands.
    pub open spec fn describes(self, p: Player) -> bool {
        &&& self.hold == p.hold
        &&& self.queue@ == seq![p.active.piece] + p.queue@
        &&& self.combo == p.combo
        &&& self.back_to_back == p.back_to_back
        &&& self.board@.len() == 40
        &&& forall|y: int| 0 <= y < 40 ==> (#[trigger] self.board@[y])@.len() == 10
        &&& forall|x: int, y: int|
            0 <= x < 10 && 0 <= y < 40 ==> (#[trigger] self.board@[y]@[x]) == cell_char(
                p.board@[y][x],
            )
        &&& match p.randomizer.bag_spec() {
            Some(bag) => self.randomizer matches BagState::SevenBag(left) && left@ == bag,
            None => self.randomizer is Unknown,
        }
    }
}

impl Player {
    /// Whether a placement of `desired` can be played: the piece is in
    /// play, or held, or it heads the queue and no hold was made in this
    /// turn. An empty queue has no head.
    pub open spec fn can_play(self, desired: Tetromino) -> bool {
        ||| desired == self.active.piece
        ||| self.hold == Some(desired)
        ||| (self.queue@.len() > 0 && self.queue@[0] == desired && !self.held_on_turn)
    }

    /// The player after `desired` was brought into play for a placement.
    ///
    /// A piece in play stays. A held piece changes places with the piece in
    /// play. The head of the queue comes into play while the piece in play
    /// goes to the hold slot, whatever was held; the queue moves up and is
    /// refilled. Either change marks the turn as one with a hold.
    pub open spec fn selected_from(self, pre: Player, desired: Tetromino) -> bool {
        if desired == pre.active.piece {
            self == pre
        } else if pre.hold == Some(desired) {
            self == (Player {
                active: ActivePiece::spawned(desired),
                hold: Some(pre.active.piece),
                held_on_turn: true,
                ..pre
            })
        } else {
            &&& self.active == ActivePiece::spawned(desired)
            &&& self.hold == Some(pre.active.piece)
            &&& self.held_on_turn
            &&& self.refilled(pre.queue@.drop_first(), pre.randomizer, pre.board@)
            &&& self.board == pre.board
            &&& self.last_action_was_t_spin == pre.last_action_was_t_spin
            &&& self.topped_out == pre.topped_out
            &&& self.pending_garbage == pre.pending_garbage
            &&& self.combo == pre.combo
            &&& self.back_to_back == pre.back_to_back
        }
    }

    /// The player with the piece in play put where a placement asks for
    /// it, before it is known whether it can stand there.
    pub open spec fn aimed_from(self, pre: Player, rot: Rotation, x: i32, y: i32) -> bool {
        self == (Player {
            active: ActivePiece {
                rotation: rot,
                x: engine_x(pre.active.piece, rot, x),
                y,
                ..pre.active
            },
            ..pre
        })
    }

    /// Brings `desired` into play for a placement, and tells whether that
    /// could be done.
    pub fn select_piece(&mut self, desired: Tetromino) -> (ok: bool)
        ensures
            ok == old(self).can_play(desired),
            ok ==> final(self).selected_from(*old(self), desired),
            !ok ==> *final(self) == *old(self),
            final(self).randomizer.kind_spec() == old(self).randomizer.kind_spec(),
            old(self).wf() ==> final(self).wf(),
    {
        if desired == self.active.piece {
            return true;
        }
        let held = match self.hold {
            Some(h) => h == desired,
            None => false,
        };
        let heads_queue = self.queue.len() > 0 && self.queue[0] == desired;
        if held {
            let previous = self.active.piece;
            self.active = ActivePiece::new(desired);
            self.hold = Some(previous);
            self.held_on_turn = true;
            true
        } else if heads_queue && !self.held_on_turn {
            self.hold = Some(self.active.piece);
            self.active = ActivePiece::new(desired);
            let _ = self.queue.remove(0);
            assert(self.queue@ =~= old(self).queue@.drop_first());
            self.refill_queue();
            self.held_on_turn = true;
            true
        } else {
            false
        }
    }

    /// Puts the piece in play where a placement asks for it, or, if it is
    /// blocked there, at the lowest row of that column at which it is
    /// free. Tells whether the piece found a place; if not, it stays where
    /// the placement asked for it.
    pub fn place_at(&mut self, rot: Rotation, x: i32, y: i32) -> (ok: bool)
        ensures
            ok == placed_pose(old(self).board@, old(self).active.piece, rot, x, y) is Some,
            ok ==> final(self).active.is_moved(
                old(self).active,
                placed_pose(old(self).board@, old(self).active.piece, rot, x, y)->0,
            ),
            !ok ==> final(self).aimed_from(*old(self), rot, x, y),
            *final(self) == (Player { active: final(self).active, ..*old(self) }),
            old(self).wf() ==> final(self).wf(),
    {
        self.active.rotation = rot;
        self.active.x = x;
        self.active.y = y;
        if self.active.piece == Tetromino::I && (rot == Rotation::Right || rot
            == Rotation::Reverse) && x > i32::MIN {
            self.active.x = x - 1;
        }
        if self.board.collision(&self.active) {
            let shape = self.active.blocks();
            match self.board.lowest_drop_height(self.active.x, &shape) {
                Some(drop_y) => {
                    self.active.y = drop_y;
                    true
                },
                None => false,
            }
        } else {
            true
        }
    }
}

/// The letters of the cells of a board, row by row from the floor up.
fn board_letters(board: &Board) -> (rows: Vec<Vec<Option<char>>>)
    ensures
        rows@.len() == 40,
        forall|y: int| 0 <= y < 40 ==> (#[trigger] rows@[y])@.len() == 10,
        forall|x: int, y: int|
            0 <= x < 10 && 0 <= y < 40 ==> (#[trigger] rows@[y]@[x]) == cell_char(board@[y][x]),
{
    let mut rows: Vec<Vec<Option<char>>> = Vec::new();
    let mut y: usize = 0;
    while y < 40
        invariant
            y <= 40,
            rows@.len() == y,
            forall|r: int| 0 <= r < y ==> (#[trigger] rows@[r])@.len() == 10,
            forall|x: int, r: int|
                0 <= x < 10 && 0 <= r < y ==> (#[trigger] rows@[r]@[x]) == cell_char(board@[r][x]),
        decreases 40 - y,
    {
        let mut row: Vec<Option<char>> = Vec::new();
        let mut x: usize = 0;
        while x < 10
            invariant
                x <= 10,
                y < 40,
                row@.len() == x,
                forall|k: int| 0 <= k < x ==> #[trigger] row@[k] == cell_char(board@[y as int][k]),
            decreases 10 - x,
        {
            row.push(color_to_cell_char(board.cells[y][x]));
            x += 1;
        }
        rows.push(row);
        y += 1;
    }
    rows
}

impl Versus {
    /// The error that a placement for player `idx` meets, if any. The
    /// checks come in this order: the index, the player's state, the piece
    /// and whether it can be played, the orientation, and at last whether
    /// the piece finds a place.
    pub open spec fn move_error(self, idx: usize, mv: Placement) -> Option<MoveError> {
        if idx >= 2 {
            Some(MoveError::InvalidPlayerIndex)
        } else if self.players[idx as int].topped_out {
            Some(MoveError::PlayerToppedOut)
        } else if mv.piece is None {
            Some(MoveError::UnknownPiece)
        } else if !self.players[idx as int].can_play(mv.piece->0) {
            Some(MoveError::MoveNotAvailable)
        } else if mv.orientation is None {
            Some(MoveError::UnknownOrientation)
        } else if placed_pose(
            self.players[idx as int].board@,
            mv.piece->0,
            mv.orientation->0,
            mv.x,
            mv.y,
        ) is None {
            Some(MoveError::PlacementCollision)
        } else {
            None
        }
    }

    /// The game after a placement for player `idx` was turned down.
    ///
    /// Nothing changed unless the piece had been brought into play before
    /// the error showed: an unknown orientation leaves the piece fresh at
    /// the spawn point, a placement without a place leaves it where the
    /// placement asked for it.
    pub open spec fn move_failed(
        self,
        pre: Versus,
        idx: usize,
        mv: Placement,
        e: MoveError,
    ) -> bool {
        match e {
            MoveError::UnknownOrientation => {
                &&& self.same_but_players(pre)
                &&& self.players[1 - idx] == pre.players[1 - idx]
                &&& self.players[idx as int].selected_from(pre.players[idx as int], mv.piece->0)
            },
            MoveError::PlacementCollision => {
                &&& self.same_but_players(pre)
                &&& self.players[1 - idx] == pre.players[1 - idx]
                &&& exists|chosen: Player|
                    {
                        &&& #[trigger] chosen.selected_from(pre.players[idx as int], mv.piece->0)
                        &&& self.players[idx as int].aimed_from(
                            chosen,
                            mv.orientation->0,
                            mv.x,
                            mv.y,
                        )
                    }
            },
            _ => self == pre,
        }
    }

    /// The game after a placement for player `idx` was played, with what
    /// is told of it: the piece was brought into play, put in its place
    /// and locked there, the lock was resolved, and the player's fall
    /// accumulator was cleared.
    pub open spec fn move_applied(
        self,
        pre: Versus,
        idx: usize,
        mv: Placement,
        r: AppliedMoveResult,
    ) -> bool {
        let me = self.players[idx as int];
        &&& self == (Versus {
            players: self.players,
            stats: self.stats,
            fall_accum: self.fall_accum,
            ..pre
        })
        &&& self.fall_accum[idx as int] == 0
        &&& self.fall_accum[1 - idx] == pre.fall_accum[1 - idx]
        &&& exists|chosen: Player, aimed: Player|
            {
                &&& #[trigger] chosen.selected_from(pre.players[idx as int], mv.piece->0)
                &&& #[trigger] aimed.active.is_moved(
                    chosen.active,
                    placed_pose(chosen.board@, mv.piece->0, mv.orientation->0, mv.x, mv.y)->0,
                )
                &&& aimed == (Player { active: aimed.active, ..chosen })
                &&& self.lock_told(
                    pre,
                    idx as int,
                    aimed,
                    aimed.active.y as int,
                    r.lines_cleared as int,
                )
            }
        &&& r.topped_out == me.topped_out
        &&& r.active_piece == (if me.topped_out {
            None
        } else {
            Some(me.active.piece)
        })
        &&& r.new_queue_piece == (match me.last_refill_added {
            Some(p) => Some(p),
            None => if me.queue@.len() > 0 {
                Some(me.queue@.last())
            } else {
                None
            },
        })
        &&& r.combo == me.combo
        &&& r.back_to_back == me.back_to_back
    }

    /// How the game of player `idx` stands, for the bot.
    pub fn tbp_start(&self, idx: usize) -> (r: Result<StartInfo, MoveError>)
        ensures
            idx >= 2 ==> r == Err::<StartInfo, MoveError>(MoveError::InvalidPlayerIndex),
            idx < 2 ==> r is Ok && r->Ok_0.describes(self.players[idx as int]),
    {
        if idx >= 2 {
            return Err(MoveError::InvalidPlayerIndex);
        }
        let player = &self.players[idx];
        let board = board_letters(&player.board);
        let mut queue: Vec<Tetromino> = Vec::new();
        queue.push(player.active.piece);
        let mut i: usize = 0;
        while i < player.queue.len()
            invariant
                i <= player.queue@.len(),
                queue@ == seq![player.active.piece] + player.queue@.subrange(0, i as int),
            decreases player.queue@.len() - i,
        {
            queue.push(player.queue[i]);
            assert(player.queue@.subrange(0, i as int).push(player.queue@[i as int])
                =~= player.queue@.subrange(0, i + 1));
            i += 1;
        }
        assert(player.queue@.subrange(0, player.queue@.len() as int) =~= player.queue@);
        let randomizer = match player.randomizer.bag_state() {
            Some(bag) => BagState::SevenBag(bag),
            None => BagState::Unknown,
        };
        Ok(
            StartInfo {
                hold: player.hold,
                queue,
                combo: player.combo,
                back_to_back: player.back_to_back,
                board,
                randomizer,
            },
        )
    }

    /// Plays a placement of the bot for player `idx`: brings the piece
    /// into play, puts it in its place, locks it and resolves the lock.
    pub fn apply_tbp_move(&mut self, idx: usize, mv: Placement) -> (r: Result<
        AppliedMoveResult,
        MoveError,
    >)
        requires
            old(self).wf(),
        ensures
            match old(self).move_error(idx, mv) {
                Some(e) => r == Err::<AppliedMoveResult, MoveError>(e) && final(self).move_failed(
                    *old(self),
                    idx,
                    mv,
                    e,
                ),
                None => r is Ok && final(self).move_applied(*old(self), idx, mv, r->Ok_0),
            },
            final(self).wf(),
    {
        if idx >= 2 {
            return Err(MoveError::InvalidPlayerIndex);
        }
        if self.players[idx].topped_out {
            return Err(MoveError::PlayerToppedOut);
        }
        let desired = match mv.piece {
            Some(p) => p,
            None => {
                return Err(MoveError::UnknownPiece);
            },
        };
        if !self.players[idx].select_piece(desired) {
            assert(self.players =~= old(self).players);
            return Err(MoveError::MoveNotAvailable);
        }
        let ghost chosen = self.players[idx as int];
        let rot = match mv.orientation {
            Some(o) => o,
            None => {
                return Err(MoveError::UnknownOrientation);
            },
        };
        if !self.players[idx].place_at(rot, mv.x, mv.y) {
            return Err(MoveError::PlacementCollision);
        }
        let ghost aimed = self.players[idx as int];
        self.fall_accum[idx] = 0;
        let ghost ready = *self;
        let lines = self.lock_and_resolve(idx);
        proof {
            lemma_lock_exchange_frame(*self, ready, *old(self), idx as int);
            assert(self.lock_told(
                *old(self),
                idx as int,
                aimed,
                aimed.active.y as int,
                lines as int,
            ));
            assert(chosen.selected_from(old(self).players[idx as int], desired));
        }
        Ok(self.outcome(idx, lines))
    }

    /// What is told of a lock of player `idx` that cleared `lines` lines.
    fn outcome(&self, idx: usize, lines: usize) -> (r: AppliedMoveResult)
        requires
            idx < 2,
        ensures
            r.lines_cleared == lines,
            r.topped_out == self.players[idx as int].topped_out,
            r.active_piece == (if self.players[idx as int].topped_out {
                None
            } else {
                Some(self.players[idx as int].active.piece)
            }),
            r.new_queue_piece == (match self.players[idx as int].last_refill_added {
                Some(p) => Some(p),
                None => if self.players[idx as int].queue@.len() > 0 {
                    Some(self.players[idx as int].queue@.last())
                } else {
                    None
                },
            }),
            r.combo == self.players[idx as int].combo,
            r.back_to_back == self.players[idx as int].back_to_back,
    {
        let player = &self.players[idx];
        let new_queue_piece = match player.last_refill_added {
            Some(p) => Some(p),
            None => if player.queue.len() > 0 {
                Some(player.queue[player.queue.len() - 1])
            } else {
                None
            },
        };
        AppliedMoveResult {
            lines_cleared: lines,
            topped_out: player.topped_out,
            active_piece: if player.topped_out {
                None
            } else {
                Some(player.active.piece)
            },
            new_queue_piece,
            combo: player.combo,
            back_to_back: player.back_to_back,
        }
    }
}

} // verus!