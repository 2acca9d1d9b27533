//! One side of a game: a board, the piece in play, the queue of pieces to
//! come, the hold slot, and what the side owes and has earned.

use vstd::prelude::*;
use crate::active::{ActivePiece, SPAWN_X, SPAWN_Y};
use crate::board::{
    cleared,
    cleared_count,
    collides,
    empty_grid,
    stack_height,
    with_cells,
    with_garbage,
    Board,
};
use crate::kicks::{kick_offsets, lemma_kick_list, KickTable};
use crate::motion::{
    fallen,
    first_fit,
    kicked,
    landed,
    lemma_stands_on_grid,
    rotated,
    shifted,
    stands,
    turn_target,
    turned_pose,
    Pose,
};
use crate::piece::{Rotation, Tetromino};
use crate::randomizer::{
    draws,
    lemma_draws_none,
    lemma_draws_one,
    lemma_draws_push,
    randomizer_from_kind,
    Randomizer,
    RandomizerKind,
};
use crate::stats::capped;

verus! {

/// The smaller of two numbers.
pub open spec fn lesser(a: int, b: int) -> int {
    if a < b {
        a
    } else {
        b
    }
}

/// The combo count after a lock: one more after a lock that cleared a line,
/// zero after one that did not.
pub open spec fn combo_after(combo: u32, cleared: int) -> int {
    if cleared > 0 {
        capped(combo as int, 1)
    } else {
        0
    }
}

/// One side of a game.
#[derive(Debug)]
pub struct Player {
    pub board: Board,
    pub active: ActivePiece,
    pub queue: Vec<Tetromino>,
    pub hold: Option<Tetromino>,
    pub held_on_turn: bool,
    pub last_action_was_t_spin: bool,
    pub randomizer: Randomizer,
    pub topped_out: bool,
    pub pending_garbage: u32,
    pub combo: u32,
    pub back_to_back: bool,
    pub last_refill_added: Option<Tetromino>,
}

impl Player {
    /// The board holds known colours only, at least five pieces are queued,
    /// and the randomizer's bag holds no piece twice.
    pub open spec fn wf(&self) -> bool {
        &&& self.board.wf()
        &&& self.queue@.len() >= 5
        &&& self.randomizer.wf()
    }

    /// The player is `pre` but for the piece in play and the mark of a
    /// T-spin.
    pub open spec fn same_but_active(self, pre: Player) -> bool {
        self == (Player {
            active: self.active,
            last_action_was_t_spin: self.last_action_was_t_spin,
            ..pre
        })
    }

    /// The queue grew from `before` to six pieces by draws on the board
    /// `g`; a queue that had six or more is as it was.
    pub open spec fn refilled(
        self,
        before: Seq<Tetromino>,
        rand: Randomizer,
        g: Seq<Seq<u8>>,
    ) -> bool {
        let n = before.len() as int;
        &&& self.queue@.len() == (if n < 6 {
            6
        } else {
            n
        })
        &&& self.queue@.subrange(0, n) == before
        &&& draws(rand, g, self.randomizer, self.queue@.subrange(n, self.queue@.len() as int))
        &&& self.last_refill_added == (if n < 6 {
            Some(self.queue@.last())
        } else {
            None::<Tetromino>
        })
    }

    /// The player after the head of `pre`'s queue came into play on the
    /// board `g`: the piece stands fresh at the spawn point, the turn's
    /// marks are cleared, the queue moved up and was refilled, and the
    /// player is topped out if the piece has no room.
    pub open spec fn spawned_on(self, pre: Player, g: Seq<Seq<u8>>) -> bool {
        &&& self.board@ == g
        &&& self.active == ActivePiece::spawned(pre.queue@[0])
        &&& !self.held_on_turn
        &&& !self.last_action_was_t_spin
        &&& self.topped_out == (pre.topped_out || collides(
            g,
            pre.queue@[0],
            Rotation::Spawn,
            SPAWN_X as int,
            SPAWN_Y as int,
        ))
        &&& self.refilled(pre.queue@.drop_first(), pre.randomizer, g)
        &&& self.hold == pre.hold
        &&& self.pending_garbage == pre.pending_garbage
        &&& self.combo == pre.combo
        &&& self.back_to_back == pre.back_to_back
    }

    /// The player after `pre`'s piece locked at row `y`: the piece was
    /// written to the board, `lines` lines cleared, and the next piece came
    /// into play. The lock counts as a T-spin if the piece is a `T` whose
    /// last move was a turn and a line cleared.
    pub open spec fn locked_at(self, pre: Player, y: int, lines: int, t_spin: bool) -> bool {
        let placed = with_cells(
            pre.board@,
            pre.active.points(),
            pre.active.x as int,
            y,
            pre.active.piece.color(),
        );
        &&& lines == cleared_count(placed)
        &&& t_spin == (pre.last_action_was_t_spin && pre.active.piece == Tetromino::T && lines > 0)
        &&& self.spawned_on(pre, cleared(placed))
    }

    /// A hold would bring the head of the queue into play: no hold was made
    /// in this turn yet and nothing is held.
    pub open spec fn hold_takes_next(self) -> bool {
        !self.held_on_turn && self.hold is None
    }

    /// The player after a hold was tried. A second hold in a turn does
    /// nothing. Otherwise the piece in play goes to the hold slot, and what
    /// was held, or else the head of the queue, comes into play.
    pub open spec fn held_from(self, pre: Player) -> bool {
        if pre.held_on_turn {
            self == pre
        } else {
            match pre.hold {
                Some(held) => self == (Player {
                    active: ActivePiece::spawned(held),
                    hold: Some(pre.active.piece),
                    held_on_turn: true,
                    ..pre
                }),
                None => {
                    &&& self.board == pre.board
                    &&& self.active == ActivePiece::spawned(pre.queue@[0])
                    &&& self.held_on_turn
                    &&& !self.last_action_was_t_spin
                    &&& self.topped_out == (pre.topped_out || collides(
                        pre.board@,
                        pre.queue@[0],
                        Rotation::Spawn,
                        SPAWN_X as int,
                        SPAWN_Y as int,
                    ))
                    &&& self.refilled(pre.queue@.drop_first(), pre.randomizer, pre.board@)
                    &&& self.hold == Some(pre.active.piece)
                    &&& self.pending_garbage == pre.pending_garbage
                    &&& self.combo == pre.combo
                    &&& self.back_to_back == pre.back_to_back
                },
            }
        }
    }

    /// The player after `pre` took in the outcome of a lock that cleared
    /// `cleared` lines and earned `attack`, where a spill of garbage came
    /// with its hole in column `hole`.
    ///
    /// The combo moves on and the back-to-back mark is set by a clear of
    /// four lines or more. The attack cancels pending garbage, as much as
    /// there is of either. After a lock that cleared nothing, whatever
    /// garbage is still pending comes onto the board, and the player is
    /// topped out if the stack then reaches above the visible rows.
    pub open spec fn absorbed(self, pre: Player, cleared: int, attack: int, hole: int) -> bool {
        let pending = pre.pending_garbage - lesser(pre.pending_garbage as int, attack);
        let spill = cleared <= 0 && pending > 0;
        &&& self == (Player {
            board: self.board,
            combo: combo_after(pre.combo, cleared) as u32,
            back_to_back: cleared >= 4,
            pending_garbage: (if cleared <= 0 {
                0
            } else {
                pending
            }) as u32,
            topped_out: pre.topped_out || (spill && stack_height(self.board@) > 20),
            ..pre
        })
        &&& self.board@ == (if spill {
            with_garbage(pre.board@, pending, hole)
        } else {
            pre.board@
        })
    }

    /// Takes in the outcome of a lock, and tells how much of the attack is
    /// left to send after it cancelled pending garbage.
    pub fn absorb(&mut self, cleared: usize, attack: u32) -> (sent: u32)
        ensures
            sent == attack - lesser(old(self).pending_garbage as int, attack as int),
            exists|hole: int|
                0 <= hole < 10 && #[trigger] final(self).absorbed(
                    *old(self),
                    cleared as int,
                    attack as int,
                    hole,
                ),
            old(self).wf() ==> final(self).wf(),
    {
        if cleared > 0 {
            self.combo = self.combo.saturating_add(1);
        } else {
            self.combo = 0;
        }
        self.back_to_back = cleared >= 4;
        let mut left: u32 = attack;
        if self.pending_garbage >= attack {
            self.pending_garbage = self.pending_garbage - attack;
            left = 0;
        } else {
            left = attack - self.pending_garbage;
            self.pending_garbage = 0;
        }
        let ghost mut hole: int = 0;
        if cleared == 0 {
            let pending: u32 = self.pending_garbage;
            if pending > 0 {
                let overflow = self.board.add_garbage(pending);
                proof {
                    hole = choose|h: int|
                        0 <= h < 10 && self.board@ == #[trigger] with_garbage(
                            old(self).board@,
                            pending as int,
                            h,
                        );
                }
                if overflow {
                    self.topped_out = true;
                }
                self.pending_garbage = 0;
            }
        }
        proof {
            assert(final(self).absorbed(*old(self), cleared as int, attack as int, hole));
        }
        left
    }

    /// A player as a game starts: an empty board, six pieces drawn on it
    /// by a fresh randomizer of the kind asked for, the first of them in
    /// play and the other five queued, and nothing held, owed or earned.
    pub open spec fn is_new(self, kind: RandomizerKind) -> bool {
        &&& self.board@ == empty_grid()
        &&& self.queue@.len() == 5
        &&& self.active == ActivePiece::spawned(self.active.piece)
        &&& self.randomizer.kind_spec() == kind
        &&& exists|fresh: Randomizer|
            {
                &&& fresh.kind_spec() == kind
                &&& fresh.bag_spec() is Some ==> fresh.bag_spec()->0.len() == 0
                &&& #[trigger] draws(
                    fresh,
                    empty_grid(),
                    self.randomizer,
                    seq![self.active.piece] + self.queue@,
                )
            }
        &&& self.hold is None
        &&& !self.held_on_turn
        &&& !self.last_action_was_t_spin
        &&& !self.topped_out
        &&& self.pending_garbage == 0
        &&& self.combo == 0
        &&& !self.back_to_back
        &&& self.last_refill_added is None
    }

    /// A new player.
    pub fn new(randomizer_kind: RandomizerKind) -> (p: Player)
        ensures
            p.is_new(randomizer_kind),
            p.wf(),
    {
        let mut randomizer = randomizer_from_kind(randomizer_kind);
        let ghost fresh = randomizer;
        let board = Board::new();
        let mut queue: Vec<Tetromino> = Vec::new();
        proof {
            lemma_draws_none(fresh, empty_grid());
        }
        let mut i: usize = 0;
        while i < 6
            invariant
                i <= 6,
                queue@.len() == i,
                board@ == empty_grid(),
                draws(fresh, empty_grid(), randomizer, queue@),
                randomizer.kind_spec() == randomizer_kind,
                randomizer.wf(),
            decreases 6 - i,
        {
            let ghost mid = randomizer;
            let ghost before = queue@;
            let piece = randomizer.next(&board);
            queue.push(piece);
            proof {
                lemma_draws_push(fresh, empty_grid(), mid, before, randomizer, piece);
            }
            i += 1;
        }
        let ghost dealt = queue@;
        let first = queue.remove(0);
        assert(seq![first] + queue@ =~= dealt);
        let p = Player {
            board,
            active: ActivePiece::new(first),
            queue,
            hold: None,
            held_on_turn: false,
            last_action_was_t_spin: false,
            randomizer,
            topped_out: false,
            pending_garbage: 0,
            combo: 0,
            back_to_back: false,
            last_refill_added: None,
        };
        proof {
            assert(fresh.kind_spec() == randomizer_kind);
            assert(draws(fresh, empty_grid(), p.randomizer, seq![p.active.piece] + p.queue@));
        }
        p
    }

    /// The player after `pre` was given a fresh randomizer of the kind
    /// `kind`: the queue was drawn anew, seven pieces on the board as it
    /// is, the first of them came into play, and the hold slot is empty.
    pub open spec fn randomizer_set(self, pre: Player, kind: RandomizerKind) -> bool {
        &&& self.board == pre.board
        &&& self.queue@.len() == 6
        &&& self.active == ActivePiece::spawned(self.active.piece)
        &&& exists|fresh: Randomizer|
            {
                &&& fresh.kind_spec() == kind
                &&& fresh.bag_spec() is Some ==> fresh.bag_spec()->0.len() == 0
                &&& #[trigger] draws(
                    fresh,
                    pre.board@,
                    self.randomizer,
                    seq![self.active.piece] + self.queue@,
                )
            }
        &&& self.randomizer.kind_spec() == kind
        &&& self.last_refill_added == Some(self.queue@.last())
        &&& self.hold is None
        &&& !self.held_on_turn
        &&& !self.last_action_was_t_spin
        &&& self.topped_out == (pre.topped_out || collides(
            pre.board@,
            self.active.piece,
            Rotation::Spawn,
            SPAWN_X as int,
            SPAWN_Y as int,
        ))
        &&& self.pending_garbage == pre.pending_garbage
        &&& self.combo == pre.combo
        &&& self.back_to_back == pre.back_to_back
    }

    /// Gives the player a fresh randomizer of the given kind and draws the
    /// queue and the piece in play anew.
    pub fn set_randomizer(&mut self, kind: RandomizerKind)
        ensures
            final(self).randomizer_set(*old(self), kind),
            old(self).board.wf() ==> final(self).wf(),
    {
        self.randomizer = randomizer_from_kind(kind);
        let ghost fresh = self.randomizer;
        self.queue.clear();
        self.refill_queue();
        let ghost six = self.queue@;
        let ghost mid = self.randomizer;
        assert(six.subrange(0, 6) =~= six);
        self.hold = None;
        self.spawn_next();
        proof {
            let last = self.queue@.subrange(5, 6);
            assert(last =~= seq![self.queue@[5]]);
            assert(last.drop_last() =~= Seq::<Tetromino>::empty());
            lemma_draws_one(mid, self.board@, self.randomizer, last);
            lemma_draws_push(fresh, self.board@, mid, six, self.randomizer, self.queue@[5]);
            assert(six.push(self.queue@[5]) =~= seq![self.active.piece] + self.queue@) by {
                assert(self.queue@.subrange(0, 5) == six.drop_first());
                assert forall|i: int| 0 <= i < 7 implies six.push(self.queue@[5])[i] == (
                seq![self.active.piece] + self.queue@)[i] by {
                    if 0 < i < 6 {
                        assert(self.queue@.subrange(0, 5)[i - 1] == six.drop_first()[i - 1]);
                    }
                }
            }
        }
    }

    /// Draws pieces until six are queued, and notes the last one drawn.
    pub fn refill_queue(&mut self)
        ensures
            final(self).refilled(old(self).queue@, old(self).randomizer, old(self).board@),
            *final(self) == (Player {
                queue: final(self).queue,
                randomizer: final(self).randomizer,
                last_refill_added: final(self).last_refill_added,
                ..*old(self)
            }),
            final(self).randomizer.kind_spec() == old(self).randomizer.kind_spec(),
            old(self).randomizer.wf() ==> final(self).randomizer.wf(),
    {
        self.last_refill_added = None;
        let ghost n = old(self).queue@.len() as int;
        proof {
            lemma_draws_none(old(self).randomizer, old(self).board@);
            assert(self.queue@.subrange(n, n) =~= Seq::<Tetromino>::empty());
        }
        while self.queue.len() < 6
            invariant
                n == old(self).queue@.len(),
                self.queue@.len() >= n,
                self.queue@.len() > n ==> self.queue@.len() <= 6,
                self.queue@.subrange(0, n) == old(self).queue@,
                draws(
                    old(self).randomizer,
                    old(self).board@,
                    self.randomizer,
                    self.queue@.subrange(n, self.queue@.len() as int),
                ),
                self.last_refill_added == (if self.queue@.len() > n {
                    Some(self.queue@.last())
                } else {
                    None::<Tetromino>
                }),
                *self == (Player {
                    queue: self.queue,
                    randomizer: self.randomizer,
                    last_refill_added: self.last_refill_added,
                    ..*old(self)
                }),
                self.randomizer.kind_spec() == old(self).randomizer.kind_spec(),
                old(self).randomizer.wf() ==> self.randomizer.wf(),
            decreases 6 - self.queue@.len(),
        {
            let ghost mid = self.randomizer;
            let ghost before = self.queue@;
            let piece = self.randomizer.next(&self.board);
            self.queue.push(piece);
            self.last_refill_added = Some(piece);
            proof {
                lemma_draws_push(
                    old(self).randomizer,
                    old(self).board@,
                    mid,
                    before.subrange(n, before.len() as int),
                    self.randomizer,
                    piece,
                );
                assert(self.queue@.subrange(n, self.queue@.len() as int) =~= before.subrange(
                    n,
                    before.len() as int,
                ).push(piece));
                assert(self.queue@.subrange(0, n) =~= before.subrange(0, n));
            }
        }
        proof {
            assert(old(self).queue@.subrange(0, n) =~= old(self).queue@);
        }
    }

    /// Brings the head of the queue into play.
    pub fn spawn_next(&mut self)
        requires
            old(self).queue@.len() > 0,
        ensures
            final(self).spawned_on(*old(self), old(self).board@),
            final(self).board == old(self).board,
            final(self).randomizer.kind_spec() == old(self).randomizer.kind_spec(),
            old(self).randomizer.wf() ==> final(self).randomizer.wf(),
            old(self).wf() ==> final(self).wf(),
    {
        self.held_on_turn = false;
        self.last_action_was_t_spin = false;
        let next_piece = self.queue.remove(0);
        assert(self.queue@ =~= old(self).queue@.drop_first());
        self.refill_queue();
        self.active = ActivePiece::new(next_piece);
        if self.board.collision(&self.active) {
            self.topped_out = true;
        }
    }

    /// Lets the piece fall one row if it is free there.
    pub fn try_fall(&mut self) -> (ok: bool)
        ensures
            ok == stands(
                old(self).board@,
                old(self).active.piece,
                Pose { y: old(self).active.y - 1, ..old(self).active.pose() },
            ),
            final(self).active.is_moved(
                old(self).active,
                fallen(old(self).board@, old(self).active.piece, old(self).active.pose()),
            ),
            final(self).last_action_was_t_spin == old(self).last_action_was_t_spin,
            final(self).same_but_active(*old(self)),
            old(self).wf() ==> final(self).wf(),
    {
        if self.board.collision_after(&self.active, self.active.rotation, 0, -1) {
            return false;
        }
        proof {
            lemma_stands_on_grid(
                self.board@,
                self.active.piece,
                Pose { y: self.active.y - 1, ..self.active.pose() },
            );
        }
        self.active.y = self.active.y - 1;
        true
    }

    /// Moves the piece by `dir` columns if it is free there; a shift that
    /// succeeds clears the mark of a T-spin.
    pub fn try_shift(&mut self, dir: i32) -> (ok: bool)
        ensures
            ok == stands(
                old(self).board@,
                old(self).active.piece,
                Pose { x: old(self).active.x + dir, ..old(self).active.pose() },
            ),
            final(self).active.is_moved(
                old(self).active,
                shifted(
                    old(self).board@,
                    old(self).active.piece,
                    old(self).active.pose(),
                    dir as int,
                ),
            ),
            final(self).last_action_was_t_spin == (!ok && old(self).last_action_was_t_spin),
            final(self).same_but_active(*old(self)),
            old(self).wf() ==> final(self).wf(),
    {
        if self.board.collision_after(&self.active, self.active.rotation, dir, 0) {
            return false;
        }
        proof {
            lemma_stands_on_grid(
                self.board@,
                self.active.piece,
                Pose { x: self.active.x + dir, ..self.active.pose() },
            );
        }
        self.active.x = (self.active.x as i64 + dir as i64) as i32;
        self.last_action_was_t_spin = false;
        true
    }

    /// Turns the piece by a quarter: the kicks are tried in their order and
    /// the first that leaves the piece free is taken. A turn that succeeds
    /// marks a `T` for a T-spin and clears the mark of any other piece.
    pub fn rotate_quarter(&mut self, cw: bool) -> (ok: bool)
        ensures
            ok == rotated(
                old(self).board@,
                old(self).active.piece,
                old(self).active.pose(),
                cw,
            ) is Some,
            final(self).active.is_moved(
                old(self).active,
                turned_pose(old(self).board@, old(self).active.piece, old(self).active.pose(), cw),
            ),
            final(self).last_action_was_t_spin == (if ok {
                old(self).active.piece == Tetromino::T
            } else {
                old(self).last_action_was_t_spin
            }),
            final(self).same_but_active(*old(self)),
            old(self).wf() ==> final(self).wf(),
    {
        let from = self.active.rotation;
        let to = if cw {
            from.rotate_cw()
        } else {
            from.rotate_ccw()
        };
        let kicks = KickTable::kicks(self.active.piece, from, to);
        let ghost g = self.board@;
        let ghost piece = self.active.piece;
        let ghost pose = self.active.pose();
        proof {
            lemma_kick_list(piece, from, to);
        }
        let mut i: usize = 0;
        while i < kicks.len()
            invariant
                i <= kicks@.len(),
                kicks@ == kick_offsets(piece, from, to),
                to == turn_target(from, cw),
                *self == *old(self),
                g == self.board@,
                piece == self.active.piece,
                pose == self.active.pose(),
                from == pose.rotation,
                rotated(g, piece, pose, cw) == first_fit(g, piece, pose, to, kicks@, i as int),
            decreases kicks@.len() - i,
        {
            let (dx, dy) = kicks[i];
            if !self.board.collision_after(&self.active, to, dx, dy) {
                proof {
                    lemma_stands_on_grid(g, piece, kicked(pose, to, kicks@[i as int]));
                }
                self.active.rotation = to;
                self.active.x = (self.active.x as i64 + dx as i64) as i32;
                self.active.y = (self.active.y as i64 + dy as i64) as i32;
                self.last_action_was_t_spin = self.active.piece == Tetromino::T;
                return true;
            }
            i += 1;
        }
        false
    }

    /// Turns the piece: by a quarter, or, for `double`, by two quarters one
    /// after the other, each with its own kicks. Where the first quarter
    /// succeeds and the second does not, the piece stays as the first left
    /// it.
    pub fn try_rotate(&mut self, cw: bool, double: bool) -> (ok: bool)
        ensures
            !double ==> {
                &&& ok == rotated(
                    old(self).board@,
                    old(self).active.piece,
                    old(self).active.pose(),
                    cw,
                ) is Some
                &&& final(self).active.is_moved(
                    old(self).active,
                    turned_pose(
                        old(self).board@,
                        old(self).active.piece,
                        old(self).active.pose(),
                        cw,
                    ),
                )
            },
            double ==> {
                let once = turned_pose(
                    old(self).board@,
                    old(self).active.piece,
                    old(self).active.pose(),
                    cw,
                );
                &&& ok == (rotated(
                    old(self).board@,
                    old(self).active.piece,
                    old(self).active.pose(),
                    cw,
                ) is Some || rotated(old(self).board@, old(self).active.piece, once, cw) is Some)
                &&& final(self).active.is_moved(
                    old(self).active,
                    turned_pose(old(self).board@, old(self).active.piece, once, cw),
                )
            },
            final(self).last_action_was_t_spin == (if ok {
                old(self).active.piece == Tetromino::T
            } else {
                old(self).last_action_was_t_spin
            }),
            final(self).same_but_active(*old(self)),
            old(self).wf() ==> final(self).wf(),
    {
        if double {
            let first = self.rotate_quarter(cw);
            let second = self.rotate_quarter(cw);
            return first || second;
        }
        self.rotate_quarter(cw)
    }

    /// Swaps the piece in play with the hold slot, once in a turn. Where
    /// nothing is held yet the head of the queue comes into play, so a
    /// piece must be queued then.
    pub fn try_hold(&mut self)
        requires
            old(self).hold_takes_next() ==> old(self).queue@.len() > 0,
        ensures
            final(self).held_from(*old(self)),
            final(self).randomizer.kind_spec() == old(self).randomizer.kind_spec(),
            old(self).wf() ==> final(self).wf(),
    {
        if self.held_on_turn {
            return ;
        }
        let current = self.active.piece;
        if let Some(held) = self.hold {
            self.active = ActivePiece::new(held);
            self.hold = Some(current);
        } else {
            self.hold = Some(current);
            self.spawn_next();
        }
        self.held_on_turn = true;
    }

    /// Writes the piece to the board where it stands, clears the lines
    /// that are full, and brings the next piece into play. Tells how many
    /// lines cleared and whether the lock was a T-spin.
    pub fn lock_piece(&mut self) -> (r: (usize, bool))
        requires
            old(self).queue@.len() > 0,
        ensures
            final(self).locked_at(*old(self), old(self).active.y as int, r.0 as int, r.1),
            r.0 <= 40,
            final(self).randomizer.kind_spec() == old(self).randomizer.kind_spec(),
            old(self).wf() ==> final(self).wf(),
    {
        let color = self.active.piece.color_id();
        let blocks = self.active.blocks();
        self.board.lock_piece(self.active.x, self.active.y, &blocks, color);
        let cleared = self.board.clear_lines();
        let was_t_spin = self.last_action_was_t_spin && self.active.piece == Tetromino::T && cleared
            > 0;
        self.spawn_next();
        (cleared, was_t_spin)
    }

    /// Drops the piece as far as it falls and locks it there.
    pub fn hard_drop(&mut self) -> (r: (usize, bool))
        requires
            old(self).queue@.len() > 0,
        ensures
            final(self).locked_at(
                *old(self),
                landed(old(self).board@, old(self).active.piece, old(self).active.pose()).y,
                r.0 as int,
                r.1,
            ),
            r.0 <= 40,
            final(self).randomizer.kind_spec() == old(self).randomizer.kind_spec(),
            old(self).wf() ==> final(self).wf(),
    {
        let ghost g = self.board@;
        let ghost piece = self.active.piece;
        let ghost pose = self.active.pose();
        let mut ap = self.active;
        loop
            invariant
                *self == *old(self),
                g == self.board@,
                ap == (ActivePiece { y: ap.y, ..self.active }),
                ap.y <= self.active.y,
                landed(g, piece, pose) == landed(g, piece, ap.pose()),
                piece == self.active.piece,
                pose == self.active.pose(),
            ensures
                *self == *old(self),
                ap == (ActivePiece { y: ap.y, ..self.active }),
                ap.pose() == landed(g, piece, pose),
            decreases ap.y,
        {
            if self.board.collision_after(&ap, ap.rotation, 0, -1) {
                break ;
            }
            proof {
                lemma_stands_on_grid(g, piece, Pose { y: ap.y - 1, ..ap.pose() });
            }
            ap.y = ap.y - 1;
            if ap.y < 0 {
                break ;
            }
        }
        self.active.y = ap.y;
        self.lock_piece()
    }
}

/// A second hold in a turn does nothing: after a hold was tried the turn
/// is marked, so that a hold tried next leaves the player as is.
pub proof fn lemma_hold_twice(first: Player, second: Player, third: Player)
    requires
        second.held_from(first),
        third.held_from(second),
    ensures
        second.held_on_turn,
        third == second,
{
}

} // verus!
