//! Player input: the keys held in a tick, their rising edges, and the
//! timers of auto-shift.

use vstd::prelude::*;

verus! {

/// The keys as a front end holds them between ticks.
#[derive(Clone, Copy, Debug, PartialEq, Eq, Structural)]
pub struct InputState {
    pub left: bool,
    pub right: bool,
    pub soft_drop: bool,
    pub hard_drop: bool,
    pub rotate_ccw: bool,
    pub rotate_cw: bool,
    pub rotate_180: bool,
    pub hold: bool,
}

/// The keys held during one tick.
#[derive(Clone, Copy, Debug, PartialEq, Eq, Structural)]
pub struct InputFrame {
    pub left: bool,
    pub right: bool,
    pub soft_drop: bool,
    pub hard_drop: bool,
    pub rotate_ccw: bool,
    pub rotate_cw: bool,
    pub rotate_180: bool,
    pub hold: bool,
}

impl InputState {
    /// No key held.
    pub open spec fn idle() -> InputState {
        InputState {
            left: false,
            right: false,
            soft_drop: false,
            hard_drop: false,
            rotate_ccw: false,
            rotate_cw: false,
            rotate_180: false,
            hold: false,
        }
    }

    /// The same keys as a frame.
    pub open spec fn frame(self) -> InputFrame {
        InputFrame {
            left: self.left,
            right: self.right,
            soft_drop: self.soft_drop,
            hard_drop: self.hard_drop,
            rotate_ccw: self.rotate_ccw,
            rotate_cw: self.rotate_cw,
            rotate_180: self.rotate_180,
            hold: self.hold,
        }
    }
}

impl InputFrame {
    /// No key held.
    pub open spec fn idle() -> InputFrame {
        InputState::idle().frame()
    }

    /// The same keys as a state.
    pub open spec fn state(self) -> InputState {
        InputState {
            left: self.left,
            right: self.right,
            soft_drop: self.soft_drop,
            hard_drop: self.hard_drop,
            rotate_ccw: self.rotate_ccw,
            rotate_cw: self.rotate_cw,
            rotate_180: self.rotate_180,
            hold: self.hold,
        }
    }

    /// The direction that the two shift keys ask for: -1 for left alone, 1
    /// for right alone, 0 for neither or both.
    pub open spec fn dir(self) -> int {
        if self.left && !self.right {
            -1
        } else if self.right && !self.left {
            1
        } else {
            0
        }
    }
}

impl Default for InputState {
    fn default() -> (s: InputState)
        ensures
            s == InputState::idle(),
    {
        InputState {
            left: false,
            right: false,
            soft_drop: false,
            hard_drop: false,
            rotate_ccw: false,
            rotate_cw: false,
            rotate_180: false,
            hold: false,
        }
    }
}

impl Default for InputFrame {
    fn default() -> (f: InputFrame)
        ensures
            f == InputFrame::idle(),
    {
        InputFrame {
            left: false,
            right: false,
            soft_drop: false,
            hard_drop: false,
            rotate_ccw: false,
            rotate_cw: false,
            rotate_180: false,
            hold: false,
        }
    }
}

impl From<InputFrame> for InputState {
    fn from(value: InputFrame) -> (s: InputState) {
        InputState {
            left: value.left,
            right: value.right,
            soft_drop: value.soft_drop,
            hard_drop: value.hard_drop,
            rotate_ccw: value.rotate_ccw,
            rotate_cw: value.rotate_cw,
            rotate_180: value.rotate_180,
            hold: value.hold,
        }
    }
}

impl vstd::std_specs::convert::FromSpecImpl<InputFrame> for InputState {
    open spec fn obeys_from_spec() -> bool {
        true
    }

    open spec fn from_spec(value: InputFrame) -> InputState {
        value.state()
    }
}

impl From<InputState> for InputFrame {
    fn from(value: InputState) -> (f: InputFrame) {
        InputFrame {
            left: value.left,
            right: value.right,
            soft_drop: value.soft_drop,
            hard_drop: value.hard_drop,
            rotate_ccw: value.rotate_ccw,
            rotate_cw: value.rotate_cw,
            rotate_180: value.rotate_180,
            hold: value.hold,
        }
    }
}

impl vstd::std_specs::convert::FromSpecImpl<InputState> for InputFrame {
    open spec fn obeys_from_spec() -> bool {
        true
    }

    open spec fn from_spec(value: InputState) -> InputFrame {
        value.frame()
    }
}

/// 1 for a key that was up and is down, 0 otherwise.
pub open spec fn edge(prev: bool, curr: bool) -> int {
    if !prev && curr {
        1
    } else {
        0
    }
}

/// The number of moving and dropping keys that were up in `prev` and are
/// down in `curr`.
pub open spec fn motion_edges(prev: InputState, curr: InputState) -> int {
    edge(prev.left, curr.left) + edge(prev.right, curr.right) + edge(
        prev.soft_drop,
        curr.soft_drop,
    ) + edge(prev.hard_drop, curr.hard_drop)
}

/// The number of turning and holding keys that were up in `prev` and are
/// down in `curr`.
pub open spec fn action_edges(prev: InputState, curr: InputState) -> int {
    edge(prev.rotate_ccw, curr.rotate_ccw) + edge(prev.rotate_cw, curr.rotate_cw) + edge(
        prev.rotate_180,
        curr.rotate_180,
    ) + edge(prev.hold, curr.hold)
}

/// The number of keys that were up in `prev` and are down in `curr`.
pub open spec fn input_edges(prev: InputState, curr: InputState) -> int {
    motion_edges(prev, curr) + action_edges(prev, curr)
}

fn edge_of(prev: bool, curr: bool) -> (e: u32)
    ensures
        e == edge(prev, curr),
        e <= 1,
{
    if !prev && curr {
        1
    } else {
        0
    }
}

fn count_motion_edges(prev: &InputState, curr: &InputState) -> (n: u32)
    ensures
        n == motion_edges(*prev, *curr),
        n <= 4,
{
    edge_of(prev.left, curr.left) + edge_of(prev.right, curr.right) + edge_of(
        prev.soft_drop,
        curr.soft_drop,
    ) + edge_of(prev.hard_drop, curr.hard_drop)
}

fn count_action_edges(prev: &InputState, curr: &InputState) -> (n: u32)
    ensures
        n == action_edges(*prev, *curr),
        n <= 4,
{
    edge_of(prev.rotate_ccw, curr.rotate_ccw) + edge_of(prev.rotate_cw, curr.rotate_cw) + edge_of(
        prev.rotate_180,
        curr.rotate_180,
    ) + edge_of(prev.hold, curr.hold)
}

/// The number of keys that were up in `prev` and are down in `curr`.
pub fn count_input_edges(prev: &InputState, curr: &InputState) -> (n: u32)
    ensures
        n == input_edges(*prev, *curr),
        n <= 8,
{
    count_motion_edges(prev, curr) + count_action_edges(prev, curr)
}

/// What the engine remembers of a player's keys from tick to tick: the
/// keys of the current tick, the last state of each one-shot key, and
/// where auto-shift stands. Timers are in microseconds.
#[derive(Clone, Copy, Debug, PartialEq, Eq, Structural)]
pub struct Controller {
    pub inputs: InputState,
    pub last_hard_drop: bool,
    pub last_dir: i32,
    pub das_timer: u64,
    pub arr_timer: u64,
    pub shifted_initial: bool,
    pub last_rotate_cw: bool,
    pub last_rotate_ccw: bool,
    pub last_rotate_180: bool,
    pub last_hold: bool,
}

/// The one-shot keys that went down since they were last asked for.
#[derive(Clone, Copy, Debug, PartialEq, Eq, Structural)]
pub struct OneShots {
    pub rotate_cw: bool,
    pub rotate_ccw: bool,
    pub rotate_180: bool,
    pub hold: bool,
}

impl Controller {
    /// The controller once every one-shot key was asked for: each is
    /// remembered as it is held now.
    pub open spec fn taken(self) -> Controller {
        Controller {
            last_hard_drop: self.inputs.hard_drop,
            last_rotate_cw: self.inputs.rotate_cw,
            last_rotate_ccw: self.inputs.rotate_ccw,
            last_rotate_180: self.inputs.rotate_180,
            last_hold: self.inputs.hold,
            ..self
        }
    }

    /// Hard drop went down since it was last asked for.
    pub open spec fn one_shot_drop(self) -> bool {
        self.inputs.hard_drop && !self.last_hard_drop
    }

    /// The one-shot keys, but for hard drop, that went down since they
    /// were last asked for.
    pub open spec fn one_shots(self) -> OneShots {
        OneShots {
            rotate_cw: self.inputs.rotate_cw && !self.last_rotate_cw,
            rotate_ccw: self.inputs.rotate_ccw && !self.last_rotate_ccw,
            rotate_180: self.inputs.rotate_180 && !self.last_rotate_180,
            hold: self.inputs.hold && !self.last_hold,
        }
    }

    /// Asks for every one-shot key at once.
    pub fn take_one_shots(&mut self) -> (keys: OneShots)
        ensures
            keys == old(self).one_shots(),
            *final(self) == old(self).taken(),
    {
        let _ = self.take_hard_drop();
        let rotate_cw = self.take_rotate_cw();
        let rotate_ccw = self.take_rotate_ccw();
        let rotate_180 = self.take_rotate_180();
        let hold = self.take_hold();
        OneShots { rotate_cw, rotate_ccw, rotate_180, hold }
    }

    /// A controller that has seen no key yet.
    pub open spec fn fresh() -> Controller {
        Controller {
            inputs: InputState::idle(),
            last_hard_drop: false,
            last_dir: 0,
            das_timer: 0,
            arr_timer: 0,
            shifted_initial: false,
            last_rotate_cw: false,
            last_rotate_ccw: false,
            last_rotate_180: false,
            last_hold: false,
        }
    }

    /// A controller that has seen no key yet.
    pub fn new() -> (c: Controller)
        ensures
            c == Controller::fresh(),
    {
        Controller {
            inputs: InputState {
                left: false,
                right: false,
                soft_drop: false,
                hard_drop: false,
                rotate_ccw: false,
                rotate_cw: false,
                rotate_180: false,
                hold: false,
            },
            last_hard_drop: false,
            last_dir: 0,
            das_timer: 0,
            arr_timer: 0,
            shifted_initial: false,
            last_rotate_cw: false,
            last_rotate_ccw: false,
            last_rotate_180: false,
            last_hold: false,
        }
    }

    /// Takes the keys of the tick; what is remembered of earlier ticks
    /// stays.
    pub fn update_inputs(&mut self, incoming: InputFrame)
        ensures
            *final(self) == (Controller { inputs: incoming.state(), ..*old(self) }),
    {
        self.inputs = InputState::from(incoming);
    }

    /// Whether hard drop went down since it was last asked for.
    pub fn take_hard_drop(&mut self) -> (fire: bool)
        ensures
            fire == (old(self).inputs.hard_drop && !old(self).last_hard_drop),
            *final(self) == (Controller {
                last_hard_drop: old(self).inputs.hard_drop,
                ..*old(self)
            }),
    {
        let fire = self.inputs.hard_drop && !self.last_hard_drop;
        self.last_hard_drop = self.inputs.hard_drop;
        fire
    }

    /// Whether the clockwise key went down since it was last asked for.
    pub fn take_rotate_cw(&mut self) -> (fire: bool)
        ensures
            fire == (old(self).inputs.rotate_cw && !old(self).last_rotate_cw),
            *final(self) == (Controller {
                last_rotate_cw: old(self).inputs.rotate_cw,
                ..*old(self)
            }),
    {
        let fire = self.inputs.rotate_cw && !self.last_rotate_cw;
        self.last_rotate_cw = self.inputs.rotate_cw;
        fire
    }

    /// Whether the counter-clockwise key went down since it was last asked
    /// for.
    pub fn take_rotate_ccw(&mut self) -> (fire: bool)
        ensures
            fire == (old(self).inputs.rotate_ccw && !old(self).last_rotate_ccw),
            *final(self) == (Controller {
                last_rotate_ccw: old(self).inputs.rotate_ccw,
                ..*old(self)
            }),
    {
        let fire = self.inputs.rotate_ccw && !self.last_rotate_ccw;
        self.last_rotate_ccw = self.inputs.rotate_ccw;
        fire
    }

    /// Whether the half-turn key went down since it was last asked for.
    pub fn take_rotate_180(&mut self) -> (fire: bool)
        ensures
            fire == (old(self).inputs.rotate_180 && !old(self).last_rotate_180),
            *final(self) == (Controller {
                last_rotate_180: old(self).inputs.rotate_180,
                ..*old(self)
            }),
    {
        let fire = self.inputs.rotate_180 && !self.last_rotate_180;
        self.last_rotate_180 = self.inputs.rotate_180;
        fire
    }

    /// Whether the hold key went down since it was last asked for.
    pub fn take_hold(&mut self) -> (fire: bool)
        ensures
            fire == (old(self).inputs.hold && !old(self).last_hold),
            *final(self) == (Controller { last_hold: old(self).inputs.hold, ..*old(self) }),
    {
        let fire = self.inputs.hold && !self.last_hold;
        self.last_hold = self.inputs.hold;
        fire
    }
}

} // verus!
