//! What one tick does to a piece before it locks: turns, shifts with
//! auto-repeat, gravity and the lock delay.
//!
//! Each step is stated as a function from the state before to the state
//! after, over the grid and plain values, and carried out by a method of
//! `Player` that is proved to compute it.

use vstd::prelude::*;
use crate::active::{ActivePiece, LOCK_DELAY_US, MOVE_RESETS};
use crate::input::Controller;
use crate::motion::{rotated, shifted, stands, turned_pose, Pose};
use crate::piece::Tetromino;
use crate::player::Player;
use crate::settings::SoftDropSpeed;
use crate::stats::capped_time;

verus! {

/// The pose after the turns that were asked for in a tick: clockwise,
/// counter-clockwise, and a half turn made of two clockwise quarters, in
/// this order.
pub open spec fn turns_pose(
    g: Seq<Seq<u8>>,
    piece: Tetromino,
    pose: Pose,
    cw: bool,
    ccw: bool,
    half: bool,
) -> Pose {
    let first_pose = if cw {
        turned_pose(g, piece, pose, true)
    } else {
        pose
    };
    let second_pose = if ccw {
        turned_pose(g, piece, first_pose, false)
    } else {
        first_pose
    };
    if half {
        turned_pose(g, piece, turned_pose(g, piece, second_pose, true), true)
    } else {
        second_pose
    }
}

/// Whether any quarter turn among those asked for succeeded.
pub open spec fn turns_hit(
    g: Seq<Seq<u8>>,
    piece: Tetromino,
    pose: Pose,
    cw: bool,
    ccw: bool,
    half: bool,
) -> bool {
    let first_pose = if cw {
        turned_pose(g, piece, pose, true)
    } else {
        pose
    };
    let second_pose = if ccw {
        turned_pose(g, piece, first_pose, false)
    } else {
        first_pose
    };
    ||| cw && rotated(g, piece, pose, true) is Some
    ||| ccw && rotated(g, piece, first_pose, false) is Some
    ||| half && (rotated(g, piece, second_pose, true) is Some || rotated(
        g,
        piece,
        turned_pose(g, piece, second_pose, true),
        true,
    ) is Some)
}

/// Auto-repeat: while a step's worth of time is stored and the piece is
/// free one column further, it moves there and the step is spent. Gives
/// the pose and the time left.
pub open spec fn auto_shifted(
    g: Seq<Seq<u8>>,
    piece: Tetromino,
    pose: Pose,
    dir: int,
    arr: int,
    step: int,
) -> (Pose, int)
    decreases arr,
{
    let to = Pose { x: pose.x + dir, ..pose };
    if step > 0 && arr >= step && stands(g, piece, to) {
        auto_shifted(g, piece, to, dir, arr - step, step)
    } else {
        (pose, arr)
    }
}

/// What shifting leaves behind: where the piece is, how the controller's
/// timers stand, and whether the piece moved.
pub struct Shifting {
    pub pose: Pose,
    pub ctrl: Controller,
    pub moved: bool,
}

/// The controller once it has seen the direction of this tick: a change of
/// direction clears the timers of auto-shift.
pub open spec fn facing_dir(c: Controller, dir: i32) -> Controller {
    if dir != c.last_dir {
        Controller { das_timer: 0, arr_timer: 0, shifted_initial: false, last_dir: dir, ..c }
    } else {
        c
    }
}

/// Shifting in one tick of `dt` microseconds with the direction `dir`.
///
/// With no direction the timers are cleared. Otherwise the piece shifts
/// once when the direction is new, the delay timer runs, and once it has
/// reached `das` the repeat timer runs and auto-repeat moves the piece a
/// column for every `step` stored.
pub open spec fn shift_outcome(
    g: Seq<Seq<u8>>,
    piece: Tetromino,
    pose: Pose,
    c: Controller,
    dir: i32,
    dt: int,
    das: int,
    step: int,
) -> Shifting {
    let c0 = facing_dir(c, dir);
    if dir == 0 {
        Shifting {
            pose,
            ctrl: Controller { das_timer: 0, arr_timer: 0, shifted_initial: false, ..c0 },
            moved: false,
        }
    } else {
        let first = !c0.shifted_initial && stands(g, piece, Pose { x: pose.x + dir, ..pose });
        let first_pose = if c0.shifted_initial {
            pose
        } else {
            shifted(g, piece, pose, dir as int)
        };
        let das_timer = capped_time(c0.das_timer as int, dt);
        if das_timer >= das {
            let arr_timer = capped_time(c0.arr_timer as int, dt);
            let repeat = auto_shifted(g, piece, first_pose, dir as int, arr_timer, step);
            Shifting {
                pose: repeat.0,
                ctrl: Controller {
                    das_timer: das_timer as u64,
                    arr_timer: repeat.1 as u64,
                    shifted_initial: true,
                    ..c0
                },
                moved: first || repeat.1 < arr_timer,
            }
        } else {
            Shifting {
                pose: first_pose,
                ctrl: Controller { das_timer: das_timer as u64, shifted_initial: true, ..c0 },
                moved: first,
            }
        }
    }
}

/// What a tick of `dt` microseconds adds to the fall accumulator, in tenths
/// of a microsecond: ten for each microsecond, or the soft-drop factor in
/// tenths while soft drop is held.
pub open spec fn fall_gain(dt: int, soft: bool, speed: SoftDropSpeed) -> int {
    dt * (if soft {
        speed.tenths()
    } else {
        10
    })
}

/// Gravity: while a row's worth is stored in the accumulator and the piece
/// is free one row down, it falls there and the row's worth is spent.
/// Gives the pose and what is left in the accumulator.
pub open spec fn gravity_fallen(
    g: Seq<Seq<u8>>,
    piece: Tetromino,
    pose: Pose,
    accum: int,
    need: int,
) -> (Pose, int)
    decreases accum,
{
    let below = Pose { y: pose.y - 1, ..pose };
    if need > 0 && accum >= need && stands(g, piece, below) {
        gravity_fallen(g, piece, below, accum - need, need)
    } else {
        (pose, accum)
    }
}

/// The lock delay in one tick of `dt` microseconds, and whether the piece
/// must lock.
///
/// Off the ground the delay and the move resets are restored. On the
/// ground the delay runs down by `dt`. A piece that moved or turned in
/// this tick and has a move reset left spends it and has the full delay
/// back, whatever the tick took off. Any other piece must lock when
/// nothing is left of its delay; it is handed on as it was.
pub open spec fn lock_delay_step(ap: ActivePiece, on_ground: bool, acted: bool, dt: int) -> (
    ActivePiece,
    bool,
) {
    if !on_ground {
        (ActivePiece { lock_timer: LOCK_DELAY_US, move_resets: MOVE_RESETS, ..ap }, false)
    } else if acted && ap.move_resets > 0 {
        (
            ActivePiece {
                lock_timer: LOCK_DELAY_US,
                move_resets: (ap.move_resets - 1) as u8,
                ..ap
            },
            false,
        )
    } else if dt >= ap.lock_timer {
        (ap, true)
    } else {
        (ActivePiece { lock_timer: (ap.lock_timer - dt) as u64, ..ap }, false)
    }
}

/// The lock delay never grows while a piece rests on the ground without
/// moving, and runs down by the time of every tick that does not lock it.
/// After a move or turn on the ground with a reset left, the delay is back
/// at the full delay, exactly one reset is spent, and the piece does not
/// lock in that tick. A piece locks exactly when it has no such reset to
/// spend and the tick takes all that is left of its delay.
pub proof fn lemma_lock_delay(ap: ActivePiece, acted: bool, dt: int)
    requires
        0 <= dt,
    ensures
        !acted ==> lock_delay_step(ap, true, acted, dt).0.lock_timer <= ap.lock_timer,
        !acted ==> lock_delay_step(ap, true, acted, dt).0.move_resets == ap.move_resets,
        !(acted && ap.move_resets > 0) && !lock_delay_step(ap, true, acted, dt).1
            ==> lock_delay_step(ap, true, acted, dt).0.lock_timer == ap.lock_timer - dt,
        acted && ap.move_resets > 0 ==> {
            &&& lock_delay_step(ap, true, acted, dt).0.lock_timer == LOCK_DELAY_US
            &&& lock_delay_step(ap, true, acted, dt).0.move_resets == ap.move_resets - 1
            &&& !lock_delay_step(ap, true, acted, dt).1
        },
        lock_delay_step(ap, true, acted, dt).1 <==> !(acted && ap.move_resets > 0) && dt
            >= ap.lock_timer,
{
}

/// The controller once it has seen the direction of this tick.
fn face_dir(c: Controller, dir: i32) -> (r: Controller)
    ensures
        r == facing_dir(c, dir),
{
    if dir != c.last_dir {
        Controller { das_timer: 0, arr_timer: 0, shifted_initial: false, last_dir: dir, ..c }
    } else {
        c
    }
}

impl Player {
    /// Carries out the turns asked for in a tick, and tells whether any
    /// quarter turn succeeded.
    pub fn apply_turns(&mut self, cw: bool, ccw: bool, half: bool) -> (hit: bool)
        ensures
            hit == turns_hit(
                old(self).board@,
                old(self).active.piece,
                old(self).active.pose(),
                cw,
                ccw,
                half,
            ),
            final(self).active.is_moved(
                old(self).active,
                turns_pose(
                    old(self).board@,
                    old(self).active.piece,
                    old(self).active.pose(),
                    cw,
                    ccw,
                    half,
                ),
            ),
            final(self).last_action_was_t_spin == (if hit {
                old(self).active.piece == Tetromino::T
            } else {
                old(self).last_action_was_t_spin
            }),
            final(self).same_but_active(*old(self)),
            old(self).wf() ==> final(self).wf(),
    {
        let mut hit = false;
        if cw {
            let ok = self.try_rotate(true, false);
            hit = hit || ok;
        }
        if ccw {
            let ok = self.try_rotate(false, false);
            hit = hit || ok;
        }
        if half {
            let ok = self.try_rotate(true, true);
            hit = hit || ok;
        }
        hit
    }

    /// Auto-repeat: moves the piece a column in the direction `dir` for
    /// every `step_us` of the time stored, as far as it is free to go, and
    /// tells what is left of the time.
    pub fn auto_repeat(&mut self, dir: i32, stored: u64, step_us: u64) -> (left: u64)
        requires
            step_us > 0,
        ensures
            ({
                let out = auto_shifted(
                    old(self).board@,
                    old(self).active.piece,
                    old(self).active.pose(),
                    dir as int,
                    stored as int,
                    step_us as int,
                );
                &&& left == out.1
                &&& final(self).active.is_moved(old(self).active, out.0)
            }),
            left <= stored,
            final(self).last_action_was_t_spin == (left == stored
                && old(self).last_action_was_t_spin),
            final(self).same_but_active(*old(self)),
            old(self).wf() ==> final(self).wf(),
    {
        let ghost g = self.board@;
        let ghost piece = self.active.piece;
        let ghost start = self.active.pose();
        let mut left: u64 = stored;
        while left >= step_us
            invariant
                step_us > 0,
                left <= stored,
                g == self.board@,
                piece == self.active.piece,
                self.active.is_moved(old(self).active, self.active.pose()),
                self.same_but_active(*old(self)),
                old(self).wf() ==> self.wf(),
                self.last_action_was_t_spin == (left == stored && old(self).last_action_was_t_spin),
                auto_shifted(g, piece, self.active.pose(), dir as int, left as int, step_us as int)
                    == auto_shifted(g, piece, start, dir as int, stored as int, step_us as int),
            ensures
                left <= stored,
                self.active.is_moved(old(self).active, self.active.pose()),
                self.same_but_active(*old(self)),
                old(self).wf() ==> self.wf(),
                self.last_action_was_t_spin == (left == stored && old(self).last_action_was_t_spin),
                (self.active.pose(), left as int) == auto_shifted(
                    g,
                    piece,
                    start,
                    dir as int,
                    stored as int,
                    step_us as int,
                ),
            decreases left,
        {
            if !self.try_shift(dir) {
                break ;
            }
            left = left - step_us;
        }
        left
    }

    /// Carries out the shifting of a tick, and tells whether the piece
    /// moved.
    pub fn apply_shifts(
        &mut self,
        ctrl: &mut Controller,
        dir: i32,
        dt_us: u32,
        das_us: u64,
        step_us: u64,
    ) -> (moved: bool)
        requires
            step_us > 0,
        ensures
            ({
                let out = shift_outcome(
                    old(self).board@,
                    old(self).active.piece,
                    old(self).active.pose(),
                    *old(ctrl),
                    dir,
                    dt_us as int,
                    das_us as int,
                    step_us as int,
                );
                &&& moved == out.moved
                &&& *final(ctrl) == out.ctrl
                &&& final(self).active.is_moved(old(self).active, out.pose)
            }),
            final(self).last_action_was_t_spin == (!moved && old(self).last_action_was_t_spin),
            final(self).same_but_active(*old(self)),
            old(self).wf() ==> final(self).wf(),
    {
        let faced = face_dir(*ctrl, dir);
        if dir == 0 {
            *ctrl = Controller { das_timer: 0, arr_timer: 0, shifted_initial: false, ..faced };
            return false;
        }
        let mut moved = false;
        if !faced.shifted_initial {
            moved = self.try_shift(dir);
        }
        let das_timer: u64 = faced.das_timer.saturating_add(dt_us as u64);
        let mut arr_timer: u64 = faced.arr_timer;
        if das_timer >= das_us {
            let stored: u64 = faced.arr_timer.saturating_add(dt_us as u64);
            arr_timer = self.auto_repeat(dir, stored, step_us);
            moved = moved || arr_timer < stored;
        }
        *ctrl = Controller { das_timer, arr_timer, shifted_initial: true, ..faced };
        moved
    }

    /// Lets the piece fall for what the accumulator holds, a row for every
    /// `need` stored, and tells what is left in it.
    pub fn apply_gravity(&mut self, accum: u64, need: u64) -> (left: u64)
        requires
            need > 0,
        ensures
            ({
                let out = gravity_fallen(
                    old(self).board@,
                    old(self).active.piece,
                    old(self).active.pose(),
                    accum as int,
                    need as int,
                );
                &&& left == out.1
                &&& final(self).active.is_moved(old(self).active, out.0)
            }),
            final(self).last_action_was_t_spin == old(self).last_action_was_t_spin,
            final(self).same_but_active(*old(self)),
            old(self).wf() ==> final(self).wf(),
    {
        let ghost g = self.board@;
        let ghost piece = self.active.piece;
        let ghost start = self.active.pose();
        let mut left: u64 = accum;
        while left >= need
            invariant
                need > 0,
                g == self.board@,
                piece == self.active.piece,
                self.active.is_moved(old(self).active, self.active.pose()),
                self.same_but_active(*old(self)),
                self.last_action_was_t_spin == old(self).last_action_was_t_spin,
                gravity_fallen(g, piece, self.active.pose(), left as int, need as int)
                    == gravity_fallen(g, piece, start, accum as int, need as int),
            ensures
                self.active.is_moved(old(self).active, self.active.pose()),
                self.same_but_active(*old(self)),
                self.last_action_was_t_spin == old(self).last_action_was_t_spin,
                (self.active.pose(), left as int) == gravity_fallen(
                    g,
                    piece,
                    start,
                    accum as int,
                    need as int,
                ),
            decreases left,
        {
            if !self.try_fall() {
                break ;
            }
            left = left - need;
        }
        left
    }

    /// Whether the piece rests on the ground: it is blocked one row down.
    pub fn on_ground(&self) -> (r: bool)
        ensures
            r == !stands(
                self.board@,
                self.active.piece,
                Pose { y: self.active.y - 1, ..self.active.pose() },
            ),
    {
        self.board.collision_after(&self.active, self.active.rotation, 0, -1)
    }

    /// Runs the lock delay for a tick, and tells whether the piece must
    /// lock now.
    pub fn run_lock_delay(&mut self, dt_us: u32, acted: bool) -> (expired: bool)
        ensures
            ({
                let out = lock_delay_step(
                    old(self).active,
                    !stands(
                        old(self).board@,
                        old(self).active.piece,
                        Pose { y: old(self).active.y - 1, ..old(self).active.pose() },
                    ),
                    acted,
                    dt_us as int,
                );
                &&& expired == out.1
                &&& final(self).active == out.0
            }),
            *final(self) == (Player { active: final(self).active, ..*old(self) }),
            old(self).wf() ==> final(self).wf(),
    {
        if !self.on_ground() {
            self.active.lock_timer = LOCK_DELAY_US;
            self.active.move_resets = MOVE_RESETS;
        } else if acted && self.active.move_resets > 0 {
            self.active.lock_timer = LOCK_DELAY_US;
            self.active.move_resets = self.active.move_resets - 1;
        } else if dt_us as u64 >= self.active.lock_timer {
            return true;
        } else {
            self.active.lock_timer = self.active.lock_timer - dt_us as u64;
        }
        false
    }
}

} // verus!
