//! The tick: what the passing of time and the keys held do to a game.

use vstd::prelude::*;
use crate::active::{ActivePiece, LOCK_DELAY_US};
use crate::input::{count_input_edges, input_edges, Controller, InputFrame, InputState};
use crate::motion::{landed, stands, Pose};
use crate::piece::Tetromino;
use crate::player::Player;
use crate::settings::SoftDropSpeed;
use crate::stats::{capped, capped_time, PlayerStats};
use crate::steer::{
    fall_gain,
    gravity_fallen,
    lock_delay_step,
    shift_outcome,
    turns_hit,
    turns_pose,
};
use crate::versus::Versus;

verus! {

/// The player after the turns and shifts of a tick, with the controller and
/// whether the piece moved or turned.
///
/// The turns come first, from the keys that went down since the last tick;
/// the shifts follow, in the direction of the keys held. Of the mark of a
/// T-spin the last success decides: a shift clears it, a turn sets it for a
/// `T`.
pub open spec fn steered(
    pre: Player,
    c: Controller,
    inputs: InputState,
    dt: int,
    das: int,
    step: int,
    post: Player,
    ctrl: Controller,
    acted: bool,
) -> bool {
    let g = pre.board@;
    let piece = pre.active.piece;
    let cw = c.one_shots().rotate_cw;
    let ccw = c.one_shots().rotate_ccw;
    let half = c.one_shots().rotate_180;
    let hit = turns_hit(g, piece, pre.active.pose(), cw, ccw, half);
    let out = shift_outcome(
        g,
        piece,
        turns_pose(g, piece, pre.active.pose(), cw, ccw, half),
        c.taken(),
        inputs.frame().dir() as i32,
        dt,
        das,
        step,
    );
    &&& post.active.is_moved(pre.active, out.pose)
    &&& post.last_action_was_t_spin == (if out.moved {
        false
    } else if hit {
        piece == Tetromino::T
    } else {
        pre.last_action_was_t_spin
    })
    &&& post.same_but_active(pre)
    &&& ctrl == out.ctrl
    &&& acted == (hit || out.moved)
}

/// The player after the hold key was seen: a hold where it went down since
/// the last tick, nothing otherwise.
pub open spec fn hold_step(pre: Player, c: Controller, post: Player) -> bool {
    if c.one_shots().hold {
        post.held_from(pre)
    } else {
        post == pre
    }
}

/// The player after gravity in a tick of `dt` microseconds, and what is
/// left in the accumulator, which held `stored` before.
///
/// The accumulator takes the gain of the tick and stops at the greatest
/// `u64`; the piece falls a row for every ten times `gravity` stored.
pub open spec fn gravity_step(
    pre: Player,
    stored: u64,
    dt: int,
    soft: bool,
    speed: SoftDropSpeed,
    gravity: u64,
    post: Player,
    left: int,
) -> bool {
    let out = gravity_fallen(
        pre.board@,
        pre.active.piece,
        pre.active.pose(),
        capped_time(stored as int, fall_gain(dt, soft, speed)),
        gravity * 10,
    );
    &&& post.active.is_moved(pre.active, out.0)
    &&& post == (Player { active: post.active, ..pre })
    &&& left == out.1
}

impl Versus {
    /// The delay before auto-repeat in microseconds.
    pub open spec fn das_us(self) -> int {
        self.settings.das * 1000
    }

    /// The time between two steps of auto-repeat in microseconds; no less
    /// than a millisecond.
    pub open spec fn arr_step_us(self) -> int {
        (if self.settings.arr < 1 {
            1int
        } else {
            self.settings.arr as int
        }) * 1000
    }

    /// The end of a player's part of a tick: the lock delay runs on the
    /// player `fell`, and where it runs out the piece locks and the lock
    /// is resolved. `left` is what gravity left in the accumulator.
    pub open spec fn settled(
        self,
        pre: Versus,
        idx: int,
        fell: Player,
        left: int,
        acted: bool,
        dt: int,
    ) -> bool {
        let grounded = !stands(
            fell.board@,
            fell.active.piece,
            Pose { y: fell.active.y - 1, ..fell.active.pose() },
        );
        let out = lock_delay_step(fell.active, grounded, acted, dt);
        let waiting = Player { active: out.0, ..fell };
        if out.1 {
            &&& self.fall_accum[idx] == 0
            &&& self.lock_exchange(pre, idx, waiting, waiting.active.y as int)
        } else {
            &&& self.fall_accum[idx] == left
            &&& self.players[idx] == waiting
            &&& self.players[1 - idx] == pre.players[1 - idx]
            &&& self.stats == pre.stats
        }
    }

    /// The game after player `idx` was advanced by `dt` microseconds with
    /// the keys `inputs` held.
    ///
    /// A player who is topped out stays as is. A hard drop that went down
    /// since the last tick drops and locks the piece, resolves the lock and
    /// ends the player's part of the tick. Otherwise the piece is turned
    /// and shifted, held if asked for, pulled down by gravity, and the lock
    /// delay runs.
    pub open spec fn advanced(self, pre: Versus, idx: int, dt: int, inputs: InputState) -> bool {
        let c = pre.controllers[idx];
        if pre.players[idx].topped_out {
            self == pre
        } else {
            &&& self.turn_frame(pre, idx)
            &&& if c.inputs.hard_drop && !c.last_hard_drop {
                self.hard_dropped(pre, idx)
            } else {
                self.played(pre, idx, dt, inputs)
            }
        }
    }

    /// The controller, the statistics and the remembered keys of player
    /// `idx` after the keys `frame` came in for a tick of `dt`
    /// microseconds: the controller holds the keys, the time is counted,
    /// and so is every key that went down since the keys remembered.
    pub open spec fn noted(self, pre: Versus, idx: int, frame: InputFrame, dt: int) -> bool {
        &&& self.controllers[idx] == (Controller { inputs: frame.state(), ..pre.controllers[idx] })
        &&& self.stats[idx] == (PlayerStats {
            time_us: capped_time(pre.stats[idx].time_us as int, dt) as u64,
            keys: capped(
                pre.stats[idx].keys as int,
                input_edges(pre.last_inputs[idx], frame.state()),
            ) as u32,
            ..pre.stats[idx]
        })
        &&& self.last_inputs[idx] == frame.state()
    }

    /// The game made ready for a tick of `dt` microseconds: player 0 has
    /// the keys `input0`. With the stand-in switched on, player 1 has the
    /// keys that it holds; without it, player 1 holds no key, and only
    /// the time is counted.
    pub open spec fn prepared(self, pre: Versus, dt: int, input0: InputFrame) -> bool {
        &&& self == (Versus {
            controllers: self.controllers,
            stats: self.stats,
            last_inputs: self.last_inputs,
            bot_driver: self.bot_driver,
            ..pre
        })
        &&& self.noted(pre, 0, input0, dt)
        &&& if pre.use_internal_bot {
            exists|frame: InputFrame|
                {
                    &&& #[trigger] self.bot_driver.updated(
                        pre.bot_driver,
                        pre.players[1].board@,
                        pre.players[1].active.piece,
                        dt,
                        frame,
                    )
                    &&& self.noted(pre, 1, frame, dt)
                }
        } else {
            &&& self.bot_driver == pre.bot_driver
            &&& self.controllers[1] == (Controller {
                inputs: InputState::idle(),
                ..pre.controllers[1]
            })
            &&& self.stats[1] == (PlayerStats {
                time_us: capped_time(pre.stats[1].time_us as int, dt) as u64,
                ..pre.stats[1]
            })
            &&& self.last_inputs[1] == pre.last_inputs[1]
        }
    }

    /// The game after a tick of `dt` microseconds with the keys `input0`
    /// held by player 0.
    ///
    /// With either player topped out nothing happens. Otherwise the game
    /// is made ready, player 0 is advanced, and after that player 1 if the
    /// stand-in is switched on.
    pub open spec fn ticked(self, pre: Versus, dt: int, input0: InputFrame) -> bool {
        if pre.players[0].topped_out || pre.players[1].topped_out {
            self == pre
        } else {
            exists|ready: Versus, mid: Versus|
                {
                    &&& #[trigger] ready.prepared(pre, dt, input0)
                    &&& #[trigger] mid.advanced(ready, 0, dt, ready.controllers[0].inputs)
                    &&& if pre.use_internal_bot {
                        self.advanced(mid, 1, dt, mid.controllers[1].inputs)
                    } else {
                        self == mid
                    }
                }
        }
    }

    /// Takes the keys of player `idx` for a tick and counts them.
    fn note_inputs(&mut self, idx: usize, frame: InputFrame, dt_us: u32)
        requires
            idx < 2,
        ensures
            final(self).noted(*old(self), idx as int, frame, dt_us as int),
            *final(self) == (Versus {
                controllers: final(self).controllers,
                stats: final(self).stats,
                last_inputs: final(self).last_inputs,
                ..*old(self)
            }),
            final(self).controllers[1 - idx] == old(self).controllers[1 - idx],
            final(self).stats[1 - idx] == old(self).stats[1 - idx],
            final(self).last_inputs[1 - idx] == old(self).last_inputs[1 - idx],
    {
        self.controllers[idx].update_inputs(frame);
        let state: InputState = InputState::from(frame);
        let edges = count_input_edges(&self.last_inputs[idx], &state);
        let was = self.stats[idx];
        self.stats[idx] = PlayerStats {
            time_us: was.time_us.saturating_add(dt_us as u64),
            pieces: was.pieces,
            keys: was.keys.saturating_add(edges),
            attack: was.attack,
            finesse: was.finesse,
            lines_sent: was.lines_sent,
        };
        self.last_inputs[idx] = state;
    }

    /// Makes the game ready for a tick.
    fn prepare(&mut self, dt_us: u32, input0: InputFrame)
        ensures
            final(self).prepared(*old(self), dt_us as int, input0),
    {
        self.note_inputs(0, input0, dt_us);
        if self.use_internal_bot {
            let bot_input = self.bot_driver.update(&self.players[1], dt_us);
            self.note_inputs(1, bot_input, dt_us);
        } else {
            let idle = InputFrame::default();
            self.controllers[1].update_inputs(idle);
            let was = self.stats[1];
            self.stats[1] = PlayerStats {
                time_us: was.time_us.saturating_add(dt_us as u64),
                pieces: was.pieces,
                keys: was.keys,
                attack: was.attack,
                finesse: was.finesse,
                lines_sent: was.lines_sent,
            };
        }
    }

    /// Lets `dt_us` microseconds pass with the keys `input0` held by
    /// player 0.
    pub fn tick(&mut self, dt_us: u32, input0: InputFrame)
        requires
            old(self).wf(),
        ensures
            final(self).ticked(*old(self), dt_us as int, input0),
            final(self).wf(),
    {
        if self.players[0].topped_out || self.players[1].topped_out {
            return ;
        }
        self.prepare(dt_us, input0);
        let ghost ready = *self;
        let inputs0 = self.controllers[0].inputs;
        self.advance_player(0, dt_us, inputs0, false);
        let ghost mid = *self;
        if self.use_internal_bot {
            let inputs1 = self.controllers[1].inputs;
            self.advance_player(1, dt_us, inputs1, true);
        }
        proof {
            assert(ready.prepared(*old(self), dt_us as int, input0));
            assert(mid.advanced(ready, 0, dt_us as int, ready.controllers[0].inputs));
        }
    }

    /// Drops the piece of player `idx`, locks it and resolves the lock.
    fn drop_and_resolve(&mut self, idx: usize)
        requires
            idx < 2,
            old(self).wf(),
        ensures
            *final(self) == (Versus {
                players: final(self).players,
                stats: final(self).stats,
                ..*old(self)
            }),
            final(self).lock_exchange(
                *old(self),
                idx as int,
                old(self).players[idx as int],
                landed(
                    old(self).players[idx as int].board@,
                    old(self).players[idx as int].active.piece,
                    old(self).players[idx as int].active.pose(),
                ).y,
            ),
            final(self).wf(),
    {
        let (cleared, t_spin) = self.players[idx].hard_drop();
        let ghost mid = *self;
        self.on_piece_locked(idx, cleared, t_spin);
        proof {
            let hole = choose|hole: int|
                0 <= hole < 10 && #[trigger] self.resolved(
                    mid,
                    idx as int,
                    cleared as int,
                    t_spin,
                    hole,
                );
            assert(self.exchange(
                *old(self),
                idx as int,
                mid.players[idx as int],
                cleared as int,
                t_spin,
                hole,
            ));
            assert(self.lock_told(
                *old(self),
                idx as int,
                old(self).players[idx as int],
                landed(
                    old(self).players[idx as int].board@,
                    old(self).players[idx as int].active.piece,
                    old(self).players[idx as int].active.pose(),
                ).y,
                cleared as int,
            ));
        }
    }

    /// Locks the piece of player `idx` where it stands and resolves the
    /// lock; tells how many lines cleared.
    pub(crate) fn lock_and_resolve(&mut self, idx: usize) -> (lines: usize)
        requires
            idx < 2,
            old(self).wf(),
        ensures
            *final(self) == (Versus {
                players: final(self).players,
                stats: final(self).stats,
                ..*old(self)
            }),
            final(self).lock_told(
                *old(self),
                idx as int,
                old(self).players[idx as int],
                old(self).players[idx as int].active.y as int,
                lines as int,
            ),
            final(self).wf(),
    {
        let (cleared, t_spin) = self.players[idx].lock_piece();
        let ghost mid = *self;
        self.on_piece_locked(idx, cleared, t_spin);
        proof {
            let hole = choose|hole: int|
                0 <= hole < 10 && #[trigger] self.resolved(
                    mid,
                    idx as int,
                    cleared as int,
                    t_spin,
                    hole,
                );
            assert(self.exchange(
                *old(self),
                idx as int,
                mid.players[idx as int],
                cleared as int,
                t_spin,
                hole,
            ));
        }
        cleared
    }

    /// Turns and shifts the piece of player `idx` for a tick, and tells
    /// whether it moved or turned.
    fn steer(&mut self, idx: usize, dt_us: u32, inputs: InputState) -> (acted: bool)
        requires
            idx < 2,
            !old(self).controllers[idx as int].one_shot_drop(),
        ensures
            steered(
                old(self).players[idx as int],
                old(self).controllers[idx as int],
                inputs,
                dt_us as int,
                old(self).das_us(),
                old(self).arr_step_us(),
                final(self).players[idx as int],
                final(self).controllers[idx as int],
                acted,
            ),
            *final(self) == (Versus {
                players: final(self).players,
                controllers: final(self).controllers,
                ..*old(self)
            }),
            final(self).players[1 - idx] == old(self).players[1 - idx],
            final(self).controllers[1 - idx] == old(self).controllers[1 - idx],
    {
        let dir: i32 = if inputs.left && !inputs.right {
            -1
        } else if inputs.right && !inputs.left {
            1
        } else {
            0
        };
        let mut ctrl = self.controllers[idx];
        let keys = ctrl.take_one_shots();
        let hit = self.players[idx].apply_turns(keys.rotate_cw, keys.rotate_ccw, keys.rotate_180);
        let das_us: u64 = self.settings.das as u64 * 1000;
        let arr_ms: u64 = if self.settings.arr < 1 {
            1
        } else {
            self.settings.arr as u64
        };
        let step_us: u64 = arr_ms * 1000;
        let moved = self.players[idx].apply_shifts(&mut ctrl, dir, dt_us, das_us, step_us);
        self.controllers[idx] = ctrl;
        hit || moved
    }

    /// Lets gravity pull on the piece of player `idx` for a tick, and tells
    /// what is left in the accumulator.
    fn pull(&mut self, idx: usize, dt_us: u32, soft: bool) -> (left: u64)
        requires
            idx < 2,
            old(self).gravity_us > 0,
        ensures
            gravity_step(
                old(self).players[idx as int],
                old(self).fall_accum[idx as int],
                dt_us as int,
                soft,
                old(self).settings.soft_drop,
                old(self).gravity_us,
                final(self).players[idx as int],
                left as int,
            ),
            final(self).same_but_players(*old(self)),
            final(self).players[1 - idx] == old(self).players[1 - idx],
    {
        let tenths: u64 = if soft {
            self.settings.soft_drop.factor() as u64
        } else {
            10
        };
        assert(dt_us as u64 * tenths <= 0xffff_ffff * 9990) by (nonlinear_arith)
            requires
                dt_us <= 0xffff_ffff,
                tenths <= 9990,
        ;
        let gain: u64 = dt_us as u64 * tenths;
        let accum: u64 = self.fall_accum[idx].saturating_add(gain);
        if accum / 10 >= self.gravity_us {
            let need: u64 = self.gravity_us * 10;
            self.players[idx].apply_gravity(accum, need)
        } else {
            accum
        }
    }

    /// The game is `pre` but for what a player's part of a tick may
    /// change, and the other player's controller and accumulator are as
    /// they were.
    pub open spec fn turn_frame(self, pre: Versus, idx: int) -> bool {
        &&& self == (Versus {
            players: self.players,
            controllers: self.controllers,
            fall_accum: self.fall_accum,
            stats: self.stats,
            ..pre
        })
        &&& self.controllers[1 - idx] == pre.controllers[1 - idx]
        &&& self.fall_accum[1 - idx] == pre.fall_accum[1 - idx]
    }

    /// A player's part of a tick that starts with a hard drop.
    pub open spec fn hard_dropped(self, pre: Versus, idx: int) -> bool {
        let p = pre.players[idx];
        &&& self.controllers[idx] == (Controller { last_hard_drop: true, ..pre.controllers[idx] })
        &&& self.fall_accum[idx] == 0
        &&& self.lock_exchange(pre, idx, p, landed(p.board@, p.active.piece, p.active.pose()).y)
    }

    /// A player's part of a tick without a hard drop: the piece is turned
    /// and shifted, held if asked for, pulled down by gravity, and the lock
    /// delay runs.
    pub open spec fn played(self, pre: Versus, idx: int, dt: int, inputs: InputState) -> bool {
        let p = pre.players[idx];
        let c = pre.controllers[idx];
        exists|turned: Player, held: Player, fell: Player, left: int, acted: bool|
            {
                &&& #[trigger] steered(
                    p,
                    c,
                    inputs,
                    dt,
                    pre.das_us(),
                    pre.arr_step_us(),
                    turned,
                    self.controllers[idx],
                    acted,
                )
                &&& #[trigger] hold_step(turned, c, held)
                &&& #[trigger] gravity_step(
                    held,
                    pre.fall_accum[idx],
                    dt,
                    inputs.soft_drop,
                    pre.settings.soft_drop,
                    pre.gravity_us,
                    fell,
                    left,
                )
                &&& self.settled(pre, idx, fell, left, acted, dt)
            }
    }

    /// Carries out a player's part of a tick that starts with a hard drop.
    fn hard_drop_turn(&mut self, idx: usize)
        requires
            idx < 2,
            old(self).wf(),
            old(self).controllers[idx as int].inputs.hard_drop,
        ensures
            final(self).turn_frame(*old(self), idx as int),
            final(self).hard_dropped(*old(self), idx as int),
            final(self).wf(),
    {
        self.controllers[idx].last_hard_drop = true;
        self.fall_accum[idx] = 0;
        let ghost ready = *self;
        self.drop_and_resolve(idx);
        proof {
            lemma_lock_exchange_frame(*self, ready, *old(self), idx as int);
        }
    }

    /// Runs the lock delay of player `idx` at the end of a tick, and locks
    /// the piece where the delay runs out. `left` is what gravity left in
    /// the accumulator.
    fn finish_turn(&mut self, idx: usize, dt_us: u32, acted: bool, left: u64)
        requires
            idx < 2,
            old(self).wf(),
        ensures
            final(self).settled(
                *old(self),
                idx as int,
                old(self).players[idx as int],
                left as int,
                acted,
                dt_us as int,
            ),
            *final(self) == (Versus {
                players: final(self).players,
                fall_accum: final(self).fall_accum,
                stats: final(self).stats,
                ..*old(self)
            }),
            final(self).fall_accum[1 - idx] == old(self).fall_accum[1 - idx],
            final(self).wf(),
    {
        let expired = self.players[idx].run_lock_delay(dt_us, acted);
        if expired {
            self.fall_accum[idx] = 0;
            let ghost ready = *self;
            let _ = self.lock_and_resolve(idx);
            proof {
                lemma_lock_exchange_frame(*self, ready, *old(self), idx as int);
            }
        } else {
            self.fall_accum[idx] = left;
        }
    }

    /// Carries out a player's part of a tick without a hard drop.
    fn play_turn(&mut self, idx: usize, dt_us: u32, inputs: InputState)
        requires
            idx < 2,
            old(self).wf(),
            !old(self).controllers[idx as int].one_shot_drop(),
        ensures
            final(self).turn_frame(*old(self), idx as int),
            final(self).played(*old(self), idx as int, dt_us as int, inputs),
            final(self).wf(),
    {
        let hold = self.controllers[idx].inputs.hold && !self.controllers[idx].last_hold;
        let acted = self.steer(idx, dt_us, inputs);
        let ghost turned = self.players[idx as int];
        let ghost ctrl = self.controllers[idx as int];
        if hold {
            self.players[idx].try_hold();
        }
        let ghost held = self.players[idx as int];
        let left = self.pull(idx, dt_us, inputs.soft_drop);
        let ghost fell = self.players[idx as int];
        let ghost ready = *self;
        self.finish_turn(idx, dt_us, acted, left);
        proof {
            let pre = *old(self);
            assert(self.controllers[idx as int] == ctrl);
            assert(steered(
                pre.players[idx as int],
                pre.controllers[idx as int],
                inputs,
                dt_us as int,
                pre.das_us(),
                pre.arr_step_us(),
                turned,
                self.controllers[idx as int],
                acted,
            ));
            assert(hold_step(turned, pre.controllers[idx as int], held));
            assert(gravity_step(
                held,
                pre.fall_accum[idx as int],
                dt_us as int,
                inputs.soft_drop,
                pre.settings.soft_drop,
                pre.gravity_us,
                fell,
                left as int,
            ));
            lemma_settled_frame(
                *self,
                ready,
                *old(self),
                idx as int,
                fell,
                left as int,
                acted,
                dt_us as int,
            );
        }
    }

    /// Advances player `idx` by `dt_us` microseconds with the keys
    /// `inputs` held.
    pub fn advance_player(&mut self, idx: usize, dt_us: u32, inputs: InputState, _is_bot: bool)
        requires
            idx < 2,
            old(self).wf(),
        ensures
            final(self).advanced(*old(self), idx as int, dt_us as int, inputs),
            final(self).wf(),
    {
        if self.players[idx].topped_out {
            return ;
        }
        if self.controllers[idx].inputs.hard_drop && !self.controllers[idx].last_hard_drop {
            self.hard_drop_turn(idx);
        } else {
            self.play_turn(idx, dt_us, inputs);
        }
    }
}

/// The end of a player's part of a tick reads of the game before it only
/// the tables, the statistics and the opponent.
proof fn lemma_settled_frame(
    post: Versus,
    ready: Versus,
    pre: Versus,
    idx: int,
    fell: Player,
    left: int,
    acted: bool,
    dt: int,
)
    requires
        0 <= idx < 2,
        post.settled(ready, idx, fell, left, acted, dt),
        ready.attack_table == pre.attack_table,
        ready.combo_table == pre.combo_table,
        ready.stats == pre.stats,
        ready.players[1 - idx] == pre.players[1 - idx],
    ensures
        post.settled(pre, idx, fell, left, acted, dt),
{
    lemma_lock_exchange_frame(post, ready, pre, idx);
}

/// An exchange reads of the game before it only the tables, the statistics
/// and the opponent: it holds of any game that agrees in those.
pub proof fn lemma_lock_exchange_frame(post: Versus, ready: Versus, pre: Versus, idx: int)
    requires
        0 <= idx < 2,
        ready.attack_table == pre.attack_table,
        ready.combo_table == pre.combo_table,
        ready.stats == pre.stats,
        ready.players[1 - idx] == pre.players[1 - idx],
    ensures
        forall|locking: Player, y: int, lines: int| #[trigger]
            post.lock_told(ready, idx, locking, y, lines) ==> post.lock_told(
                pre,
                idx,
                locking,
                y,
                lines,
            ),
        forall|locking: Player, y: int| #[trigger]
            post.lock_exchange(ready, idx, locking, y) ==> post.lock_exchange(pre, idx, locking, y),
{
    assert forall|locking: Player, y: int, lines: int| #[trigger]
        post.lock_told(ready, idx, locking, y, lines) implies post.lock_told(
        pre,
        idx,
        locking,
        y,
        lines,
    ) by {
        let (me, t_spin, hole) = choose|me: Player, t_spin: bool, hole: int|
            {
                &&& me.locked_at(locking, y, lines, t_spin)
                &&& 0 <= hole < 10
                &&& #[trigger] post.exchange(ready, idx, me, lines, t_spin, hole)
            };
        assert(post.exchange(pre, idx, me, lines, t_spin, hole));
    }
    assert forall|locking: Player, y: int| #[trigger]
        post.lock_exchange(ready, idx, locking, y) implies post.lock_exchange(
        pre,
        idx,
        locking,
        y,
    ) by {
        let lines = choose|lines: int| #[trigger] post.lock_told(ready, idx, locking, y, lines);
        assert(post.lock_told(pre, idx, locking, y, lines));
    }
}

/// The lock delay at the end of a tick: a piece that rests on the ground
/// after it moved or turned in the tick, with a move reset left, does not
/// lock; its delay is back at the full delay and exactly one reset is
/// spent. A piece that rests on the ground without having moved or turned
/// locks if the tick takes all that is left of its delay, and else has its
/// delay run down by the time of the tick.
pub proof fn lemma_settled_lock_delay(
    post: Versus,
    pre: Versus,
    idx: int,
    fell: Player,
    left: int,
    acted: bool,
    dt: int,
)
    requires
        0 <= idx < 2,
        0 <= dt,
        post.settled(pre, idx, fell, left, acted, dt),
        !stands(
            fell.board@,
            fell.active.piece,
            Pose { y: fell.active.y - 1, ..fell.active.pose() },
        ),
    ensures
        acted && fell.active.move_resets > 0 ==> {
            &&& post.players[idx] == (Player {
                active: ActivePiece {
                    lock_timer: LOCK_DELAY_US,
                    move_resets: (fell.active.move_resets - 1) as u8,
                    ..fell.active
                },
                ..fell
            })
            &&& post.stats == pre.stats
        },
        !acted && dt < fell.active.lock_timer ==> post.players[idx] == (Player {
            active: ActivePiece {
                lock_timer: (fell.active.lock_timer - dt) as u64,
                ..fell.active
            },
            ..fell
        }),
        !acted && dt >= fell.active.lock_timer ==> post.lock_exchange(
            pre,
            idx,
            fell,
            fell.active.y as int,
        ),
{
    if !acted && dt >= fell.active.lock_timer {
        assert((Player { active: fell.active, ..fell }) == fell);
    }
}

} // verus!
