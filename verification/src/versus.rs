//! The versus coordinator: two players, their controllers, and the
//! exchange of attack and garbage between them.

use vstd::prelude::*;
use crate::board::visible_clear;
use crate::bot::{BotConfig, BotDriver};
use crate::input::{Controller, InputState};
use crate::motion::{fallen, rotated, shifted, stands, turned_pose, Pose};
use crate::piece::Tetromino;
use crate::player::{combo_after, lesser, Player};
use crate::randomizer::RandomizerKind;
use crate::settings::{
    default_attack_table,
    default_combo_table,
    AttackTable,
    ComboTable,
    GameSettings,
};
use crate::stats::{capped, PlayerStats};

verus! {

/// The time a piece takes to fall one row, in microseconds.
pub const GRAVITY_US: u64 = 1_000_000;

/// A game of two players. Player 0 is driven by the keys handed to
/// `tick`; player 1 by placements from outside, or by the built-in
/// stand-in where that is switched on.
#[derive(Debug)]
pub struct Versus {
    pub players: [Player; 2],
    pub controllers: [Controller; 2],
    pub settings: GameSettings,
    pub bot_driver: BotDriver,
    pub use_internal_bot: bool,
    /// What each player's piece has gathered towards its next fall, in
    /// tenths of a microsecond.
    pub fall_accum: [u64; 2],
    pub gravity_us: u64,
    pub stats: [PlayerStats; 2],
    pub last_inputs: [InputState; 2],
    pub attack_table: AttackTable,
    pub combo_table: ComboTable,
}

/// The attack of a lock before any of it is cancelled: the entry of the
/// attack table for the lines cleared, the combo bonus, the back-to-back
/// bonus where the lock before this one and this one both cleared four
/// lines or more, and the bonus for a visible field left empty.
pub open spec fn attack_before_cancel(
    attack: AttackTable,
    combos: ComboTable,
    cleared: int,
    t_spin: bool,
    combo: int,
    was_back_to_back: bool,
    perfect_clear: bool,
) -> int {
    attack.base(cleared, t_spin) + combos.bonus(combo) + (if was_back_to_back && cleared >= 4 {
        attack.back_to_back_bonus as int
    } else {
        0
    }) + (if perfect_clear {
        attack.perfect_clear as int
    } else {
        0
    })
}

impl Versus {
    /// Both players are well formed and gravity takes some time.
    pub open spec fn wf(&self) -> bool {
        &&& self.players[0].wf()
        &&& self.players[1].wf()
        &&& self.gravity_us > 0
    }

    /// The game is `pre` but for its players.
    pub open spec fn same_but_players(self, pre: Versus) -> bool {
        self == (Versus { players: self.players, ..pre })
    }

    /// The attack that player `idx` earns with a lock, before any of it is
    /// cancelled; the board is the one after the lock.
    pub open spec fn attack_earned(self, idx: int, cleared: int, t_spin: bool) -> int {
        attack_before_cancel(
            self.attack_table,
            self.combo_table,
            cleared,
            t_spin,
            combo_after(self.players[idx].combo, cleared),
            self.players[idx].back_to_back,
            visible_clear(self.players[idx].board@),
        )
    }

    /// What the lock of player `idx` does to the players and the
    /// statistics, where `me` is the player as the lock left it and a
    /// spill of garbage came with its hole in column `hole`.
    ///
    /// The piece and the attack are counted for the player, who takes in
    /// the outcome of the lock. What the player's own pending garbage did
    /// not cancel of the attack goes to the opponent's pending garbage and
    /// counts as lines sent.
    pub open spec fn exchange(
        self,
        pre: Versus,
        idx: int,
        me: Player,
        cleared: int,
        t_spin: bool,
        hole: int,
    ) -> bool {
        let opp = 1 - idx;
        let attack = attack_before_cancel(
            pre.attack_table,
            pre.combo_table,
            cleared,
            t_spin,
            combo_after(me.combo, cleared),
            me.back_to_back,
            visible_clear(me.board@),
        );
        let sent = attack - lesser(me.pending_garbage as int, attack);
        &&& self.stats[opp] == pre.stats[opp]
        &&& self.stats[idx] == (PlayerStats {
            pieces: capped(pre.stats[idx].pieces as int, 1) as u32,
            attack: capped(pre.stats[idx].attack as int, attack) as u32,
            lines_sent: capped(pre.stats[idx].lines_sent as int, sent) as u32,
            ..pre.stats[idx]
        })
        &&& self.players[opp] == (Player {
            pending_garbage: capped(pre.players[opp].pending_garbage as int, sent) as u32,
            ..pre.players[opp]
        })
        &&& self.players[idx].absorbed(me, cleared, attack, hole)
    }

    /// The game after the lock of player `idx` was resolved: the exchange
    /// took place and nothing else changed.
    pub open spec fn resolved(
        self,
        pre: Versus,
        idx: int,
        cleared: int,
        t_spin: bool,
        hole: int,
    ) -> bool {
        &&& self == (Versus { players: self.players, stats: self.stats, ..pre })
        &&& self.exchange(pre, idx, pre.players[idx], cleared, t_spin, hole)
    }

    /// What it does to the players and the statistics when the piece of
    /// `locking`, standing in for player `idx`, locks at row `y`, clears
    /// `lines` lines, and the lock is resolved.
    pub open spec fn lock_told(
        self,
        pre: Versus,
        idx: int,
        locking: Player,
        y: int,
        lines: int,
    ) -> bool {
        exists|me: Player, t_spin: bool, hole: int|
            {
                &&& me.locked_at(locking, y, lines, t_spin)
                &&& 0 <= hole < 10
                &&& #[trigger] self.exchange(pre, idx, me, lines, t_spin, hole)
            }
    }

    /// What it does to the players and the statistics when the piece of
    /// `locking`, standing in for player `idx`, locks at row `y` and the
    /// lock is resolved.
    pub open spec fn lock_exchange(self, pre: Versus, idx: int, locking: Player, y: int) -> bool {
        exists|lines: int| #[trigger] self.lock_told(pre, idx, locking, y, lines)
    }

    /// A new game: two new players, idle controllers, empty statistics,
    /// the stand-in switched off, and the default tables.
    pub fn new(
        settings: GameSettings,
        bot_config: BotConfig,
        randomizers: [RandomizerKind; 2],
    ) -> (v: Versus)
        ensures
            v.wf(),
            forall|i: int|
                0 <= i < 2 ==> {
                    &&& (#[trigger] v.players[i]).is_new(randomizers[i])
                    &&& v.controllers[i] == Controller::fresh()
                    &&& v.fall_accum[i] == 0
                    &&& v.stats[i] == PlayerStats::zero()
                    &&& v.last_inputs[i] == InputState::idle()
                },
            v.settings == settings,
            v.bot_driver == (BotDriver { config: bot_config, think_timer: 0 }),
            !v.use_internal_bot,
            v.gravity_us == GRAVITY_US,
            v.attack_table == AttackTable::default_spec(),
            v.combo_table == ComboTable::default_spec(),
    {
        let first = Player::new(randomizers[0]);
        let second = Player::new(randomizers[1]);
        Versus {
            players: [first, second],
            controllers: [Controller::new(), Controller::new()],
            settings,
            bot_driver: BotDriver::new(bot_config),
            use_internal_bot: false,
            fall_accum: [0, 0],
            gravity_us: GRAVITY_US,
            stats: [PlayerStats::default(), PlayerStats::default()],
            last_inputs: [InputState::default(), InputState::default()],
            attack_table: default_attack_table(),
            combo_table: default_combo_table(),
        }
    }

    /// The attack that player `idx` earns with a lock that cleared
    /// `cleared` lines, before any of it is cancelled.
    pub fn attack_for(&self, idx: usize, cleared: usize, is_t_spin: bool) -> (attack: u32)
        requires
            idx < 2,
        ensures
            attack == self.attack_earned(idx as int, cleared as int, is_t_spin),
            attack <= 1020,
    {
        let combo: u32 = if cleared > 0 {
            self.players[idx].combo.saturating_add(1)
        } else {
            0
        };
        let perfect_clear = self.players[idx].board.visible_empty();
        let mut attack: u32 = self.attack_table.base_attack(cleared, is_t_spin);
        attack = attack + self.combo_table.combo_bonus(combo);
        if self.players[idx].back_to_back && cleared >= 4 {
            attack = attack + self.attack_table.back_to_back_bonus as u32;
        }
        if perfect_clear {
            attack = attack + self.attack_table.perfect_clear as u32;
        }
        attack
    }

    /// Counts a lock for player `idx`: one piece, the attack it earned and
    /// the lines it sends.
    fn count_lock(&mut self, idx: usize, attack: u32, sent: u32)
        requires
            idx < 2,
        ensures
            *final(self) == (Versus { stats: final(self).stats, ..*old(self) }),
            final(self).stats[1 - idx] == old(self).stats[1 - idx],
            final(self).stats[idx as int] == (PlayerStats {
                pieces: capped(old(self).stats[idx as int].pieces as int, 1) as u32,
                attack: capped(old(self).stats[idx as int].attack as int, attack as int) as u32,
                lines_sent: capped(
                    old(self).stats[idx as int].lines_sent as int,
                    sent as int,
                ) as u32,
                ..old(self).stats[idx as int]
            }),
    {
        let was = self.stats[idx];
        self.stats[idx] = PlayerStats {
            time_us: was.time_us,
            pieces: was.pieces.saturating_add(1),
            keys: was.keys,
            attack: was.attack.saturating_add(attack),
            finesse: was.finesse,
            lines_sent: was.lines_sent.saturating_add(sent),
        };
    }

    /// Adds `sent` lines to the pending garbage of player `opp`.
    fn send_garbage(&mut self, opp: usize, sent: u32)
        requires
            opp < 2,
        ensures
            final(self).same_but_players(*old(self)),
            final(self).players[1 - opp] == old(self).players[1 - opp],
            final(self).players[opp as int] == (Player {
                pending_garbage: capped(
                    old(self).players[opp as int].pending_garbage as int,
                    sent as int,
                ) as u32,
                ..old(self).players[opp as int]
            }),
    {
        if sent > 0 {
            self.players[opp].pending_garbage = self.players[opp].pending_garbage.saturating_add(
                sent,
            );
        }
    }

    /// Resolves the lock of player `idx`, which cleared `cleared` lines:
    /// counts the piece, moves the combo on, works out the attack, cancels
    /// it against the player's pending garbage, lets what garbage is left
    /// spill after a lock that cleared nothing, and sends the rest of the
    /// attack to the opponent.
    pub fn on_piece_locked(&mut self, idx: usize, cleared: usize, is_t_spin: bool)
        requires
            idx < 2,
        ensures
            exists|hole: int|
                0 <= hole < 10 && #[trigger] final(self).resolved(
                    *old(self),
                    idx as int,
                    cleared as int,
                    is_t_spin,
                    hole,
                ),
            old(self).wf() ==> final(self).wf(),
    {
        let attack = self.attack_for(idx, cleared, is_t_spin);
        let sent = self.players[idx].absorb(cleared, attack);
        let ghost hole = choose|hole: int|
            0 <= hole < 10 && #[trigger] self.players[idx as int].absorbed(
                old(self).players[idx as int],
                cleared as int,
                attack as int,
                hole,
            );
        self.count_lock(idx, attack, sent);
        self.send_garbage(1 - idx, sent);
        proof {
            assert(final(self).resolved(*old(self), idx as int, cleared as int, is_t_spin, hole));
        }
    }

    /// Lets the piece of player `idx` fall one row if it is free there.
    pub fn try_fall(&mut self, idx: usize) -> (ok: bool)
        requires
            idx < 2,
        ensures
            ok == stands(
                old(self).players[idx as int].board@,
                old(self).players[idx as int].active.piece,
                Pose {
                    y: old(self).players[idx as int].active.y - 1,
                    ..old(self).players[idx as int].active.pose()
                },
            ),
            final(self).players[idx as int].active.is_moved(
                old(self).players[idx as int].active,
                fallen(
                    old(self).players[idx as int].board@,
                    old(self).players[idx as int].active.piece,
                    old(self).players[idx as int].active.pose(),
                ),
            ),
            final(self).players[idx as int].last_action_was_t_spin
                == old(self).players[idx as int].last_action_was_t_spin,
            final(self).players[idx as int].same_but_active(old(self).players[idx as int]),
            final(self).players[1 - idx] == old(self).players[1 - idx],
            final(self).same_but_players(*old(self)),
            old(self).wf() ==> final(self).wf(),
    {
        self.players[idx].try_fall()
    }

    /// Moves the piece of player `idx` by `dir` columns if it is free
    /// there.
    pub fn try_shift(&mut self, idx: usize, dir: i32) -> (ok: bool)
        requires
            idx < 2,
        ensures
            ok == stands(
                old(self).players[idx as int].board@,
                old(self).players[idx as int].active.piece,
                Pose {
                    x: old(self).players[idx as int].active.x + dir,
                    ..old(self).players[idx as int].active.pose()
                },
            ),
            final(self).players[idx as int].active.is_moved(
                old(self).players[idx as int].active,
                shifted(
                    old(self).players[idx as int].board@,
                    old(self).players[idx as int].active.piece,
                    old(self).players[idx as int].active.pose(),
                    dir as int,
                ),
            ),
            final(self).players[idx as int].last_action_was_t_spin == (!ok
                && old(self).players[idx as int].last_action_was_t_spin),
            final(self).players[idx as int].same_but_active(old(self).players[idx as int]),
            final(self).players[1 - idx] == old(self).players[1 - idx],
            final(self).same_but_players(*old(self)),
            old(self).wf() ==> final(self).wf(),
    {
        self.players[idx].try_shift(dir)
    }

    /// Turns the piece of player `idx`: by a quarter, or, for `double`, by
    /// two quarters one after the other, each with its own kicks.
    pub fn try_rotate(&mut self, idx: usize, cw: bool, double: bool) -> (ok: bool)
        requires
            idx < 2,
        ensures
            ({
                let g = old(self).players[idx as int].board@;
                let piece = old(self).players[idx as int].active.piece;
                let pose = old(self).players[idx as int].active.pose();
                let once = turned_pose(g, piece, pose, cw);
                &&& !double ==> ok == rotated(g, piece, pose, cw) is Some
                    && final(self).players[idx as int].active.is_moved(
                    old(self).players[idx as int].active,
                    once,
                )
                &&& double ==> ok == (rotated(g, piece, pose, cw) is Some || rotated(
                    g,
                    piece,
                    once,
                    cw,
                ) is Some) && final(self).players[idx as int].active.is_moved(
                    old(self).players[idx as int].active,
                    turned_pose(g, piece, once, cw),
                )
                &&& final(self).players[idx as int].last_action_was_t_spin == (if ok {
                    piece == Tetromino::T
                } else {
                    old(self).players[idx as int].last_action_was_t_spin
                })
            }),
            final(self).players[idx as int].same_but_active(old(self).players[idx as int]),
            final(self).players[1 - idx] == old(self).players[1 - idx],
            final(self).same_but_players(*old(self)),
            old(self).wf() ==> final(self).wf(),
    {
        self.players[idx].try_rotate(cw, double)
    }

    /// Swaps the piece of player `idx` with the hold slot, once in a turn.
    pub fn try_hold(&mut self, idx: usize)
        requires
            idx < 2,
            old(self).players[idx as int].hold_takes_next()
                ==> old(self).players[idx as int].queue@.len() > 0,
        ensures
            final(self).players[idx as int].held_from(old(self).players[idx as int]),
            final(self).players[1 - idx] == old(self).players[1 - idx],
            final(self).same_but_players(*old(self)),
            old(self).wf() ==> final(self).wf(),
    {
        self.players[idx].try_hold()
    }

    /// Gives player `player` a fresh randomizer of the given kind; an index
    /// that names no player does nothing.
    pub fn set_randomizer(&mut self, player: usize, kind: RandomizerKind)
        ensures
            player >= 2 ==> *final(self) == *old(self),
            player < 2 ==> {
                &&& final(self).players[player as int].randomizer_set(
                    old(self).players[player as int],
                    kind,
                )
                &&& final(self).players[1 - player] == old(self).players[1 - player]
                &&& final(self).same_but_players(*old(self))
            },
            old(self).wf() ==> final(self).wf(),
    {
        if player < 2 {
            self.players[player].set_randomizer(kind);
        }
    }
}

/// Garbage cancels: a resolved lock adds the attack it earned to the
/// player's count of attack, takes as much off the player's pending garbage
/// as the attack covers, and adds what is left of the attack to the
/// opponent's pending garbage. The counts are taken where they do not run
/// into the greatest `u32`, and the pending garbage where it does not spill:
/// after a lock that cleared nothing, what the attack did not cancel goes
/// onto the board and nothing stays pending.
pub proof fn lemma_garbage_cancel(
    post: Versus,
    pre: Versus,
    idx: int,
    cleared: int,
    t_spin: bool,
    hole: int,
)
    requires
        0 <= idx < 2,
        post.resolved(pre, idx, cleared, t_spin, hole),
    ensures
        ({
            let attack = pre.attack_earned(idx, cleared, t_spin);
            let pending = pre.players[idx].pending_garbage as int;
            let cancelled = lesser(pending, attack);
            &&& post.stats[idx].attack == capped(pre.stats[idx].attack as int, attack)
            &&& post.players[1 - idx].pending_garbage == capped(
                pre.players[1 - idx].pending_garbage as int,
                attack - cancelled,
            )
            &&& post.stats[idx].lines_sent == capped(
                pre.stats[idx].lines_sent as int,
                attack - cancelled,
            )
            &&& cleared > 0 || pending <= attack ==> post.players[idx].pending_garbage == pending
                - cancelled
            &&& cleared <= 0 ==> post.players[idx].pending_garbage == 0
        }),
{
}

/// The combo: a lock that cleared nothing sets it to zero, a lock that
/// cleared a line makes it one more, up to the greatest `u32`.
pub proof fn lemma_combo(post: Versus, pre: Versus, idx: int, cleared: int, t_spin: bool, hole: int)
    requires
        0 <= idx < 2,
        post.resolved(pre, idx, cleared, t_spin, hole),
    ensures
        cleared <= 0 ==> post.players[idx].combo == 0,
        cleared > 0 && pre.players[idx].combo < u32::MAX ==> post.players[idx].combo
            == pre.players[idx].combo + 1,
        cleared > 0 ==> post.players[idx].combo >= pre.players[idx].combo,
{
}

/// Back-to-back: the bonus is part of the attack exactly when the mark was
/// set before the lock and the lock cleared four lines or more; after the
/// lock the mark is set exactly when the lock cleared four lines or more.
pub proof fn lemma_back_to_back(
    post: Versus,
    pre: Versus,
    idx: int,
    cleared: int,
    t_spin: bool,
    hole: int,
)
    requires
        0 <= idx < 2,
        post.resolved(pre, idx, cleared, t_spin, hole),
    ensures
        post.players[idx].back_to_back == (cleared >= 4),
        pre.attack_earned(idx, cleared, t_spin) == attack_before_cancel(
            pre.attack_table,
            pre.combo_table,
            cleared,
            t_spin,
            combo_after(pre.players[idx].combo, cleared),
            false,
            visible_clear(pre.players[idx].board@),
        ) + (if pre.players[idx].back_to_back && cleared >= 4 {
            pre.attack_table.back_to_back_bonus as int
        } else {
            0
        }),
{
}

/// Back-to-back over two locks: of two games that are the same but for the
/// player's back-to-back mark, the one with the mark set counts more
/// attack for the same lock by the back-to-back bonus if the lock cleared
/// four lines or more, and by nothing otherwise. The counts are taken
/// where they do not run into the greatest `u32`.
pub proof fn lemma_back_to_back_gain(
    post_off: Versus,
    pre_off: Versus,
    post_on: Versus,
    pre_on: Versus,
    idx: int,
    cleared: int,
    t_spin: bool,
    hole_off: int,
    hole_on: int,
)
    requires
        0 <= idx < 2,
        !pre_off.players[idx].back_to_back,
        pre_on.players[idx] == (Player { back_to_back: true, ..pre_off.players[idx] }),
        pre_on.players[1 - idx] == pre_off.players[1 - idx],
        pre_on.same_but_players(pre_off),
        post_off.resolved(pre_off, idx, cleared, t_spin, hole_off),
        post_on.resolved(pre_on, idx, cleared, t_spin, hole_on),
        pre_on.stats[idx].attack + pre_on.attack_earned(idx, cleared, t_spin) <= u32::MAX,
    ensures
        (post_on.stats[idx].attack - pre_on.stats[idx].attack) - (post_off.stats[idx].attack
            - pre_off.stats[idx].attack) == (if cleared >= 4 {
            pre_off.attack_table.back_to_back_bonus as int
        } else {
            0
        }),
{
}

} // verus!
