//! What a game is configured with: handling, key names, and the tables
//! that turn cleared lines into attack.

use vstd::prelude::*;

verus! {

/// How fast a piece falls while soft drop is held.
#[derive(Clone, Copy, Debug, PartialEq, Eq, Structural)]
pub enum SoftDropSpeed {
    Slow,
    Medium,
    Fast,
    Ultra,
    Instant,
}

impl SoftDropSpeed {
    /// The factor by which soft drop speeds gravity up, in tenths: 1.2,
    /// 2.0, 5.0, 20.0 and 999.0.
    pub open spec fn tenths(self) -> int {
        match self {
            SoftDropSpeed::Slow => 12,
            SoftDropSpeed::Medium => 20,
            SoftDropSpeed::Fast => 50,
            SoftDropSpeed::Ultra => 200,
            SoftDropSpeed::Instant => 9990,
        }
    }

    /// The soft-drop factor in tenths.
    pub fn factor(self) -> (f: u32)
        ensures
            f == self.tenths(),
    {
        match self {
            SoftDropSpeed::Slow => 12,
            SoftDropSpeed::Medium => 20,
            SoftDropSpeed::Fast => 50,
            SoftDropSpeed::Ultra => 200,
            SoftDropSpeed::Instant => 9990,
        }
    }
}

/// How a front end draws the grid; the engine does not look at it.
#[derive(Clone, Copy, Debug, PartialEq, Eq, Structural)]
pub enum GridStyle {
    Hidden,
    Standard,
    Partial,
    Vertical,
    Full,
}

/// Handling settings. `das` and `arr` are in milliseconds.
#[derive(Clone, Copy, Debug, PartialEq, Eq, Structural)]
pub struct GameSettings {
    pub das: u32,
    pub arr: u32,
    pub soft_drop: SoftDropSpeed,
    pub ghost_enabled: bool,
    pub grid: GridStyle,
}

impl GameSettings {
    /// The settings of a game that was not configured.
    pub open spec fn default_spec() -> GameSettings {
        GameSettings {
            das: 133,
            arr: 10,
            soft_drop: SoftDropSpeed::Medium,
            ghost_enabled: true,
            grid: GridStyle::Standard,
        }
    }
}

impl Default for GameSettings {
    fn default() -> (s: GameSettings)
        ensures
            s == GameSettings::default_spec(),
    {
        GameSettings {
            das: 133,
            arr: 10,
            soft_drop: SoftDropSpeed::Medium,
            ghost_enabled: true,
            grid: GridStyle::Standard,
        }
    }
}

/// The names of the keys that drive a player, as a browser names them.
#[derive(Clone, Debug)]
pub struct ControlBindings {
    pub move_left: String,
    pub move_right: String,
    pub soft_drop: String,
    pub hard_drop: String,
    pub rotate_ccw: String,
    pub rotate_cw: String,
    pub rotate_180: String,
    pub hold: String,
}

impl Default for ControlBindings {
    fn default() -> (b: ControlBindings)
        ensures
            b.move_left@ == "ArrowLeft"@,
            b.move_right@ == "ArrowRight"@,
            b.soft_drop@ == "ArrowDown"@,
            b.hard_drop@ == "Space"@,
            b.rotate_ccw@ == "KeyZ"@,
            b.rotate_cw@ == "ArrowUp"@,
            b.rotate_180@ == "KeyA"@,
            b.hold@ == "KeyC"@,
    {
        ControlBindings {
            move_left: "ArrowLeft".to_owned(),
            move_right: "ArrowRight".to_owned(),
            soft_drop: "ArrowDown".to_owned(),
            hard_drop: "Space".to_owned(),
            rotate_ccw: "KeyZ".to_owned(),
            rotate_cw: "ArrowUp".to_owned(),
            rotate_180: "KeyA".to_owned(),
            hold: "KeyC".to_owned(),
        }
    }
}

/// The attack that a lock sends, by what it cleared.
#[derive(Clone, Copy, Debug, PartialEq, Eq, Structural)]
pub struct AttackTable {
    pub _0_lines: u8,
    pub _1_line_single: u8,
    pub _2_lines_double: u8,
    pub _3_lines_triple: u8,
    pub _4_lines: u8,
    pub t_spin_double: u8,
    pub t_spin_triple: u8,
    pub t_spin_single: u8,
    pub t_spin_mini_single: u8,
    pub perfect_clear: u8,
    pub back_to_back_bonus: u8,
}

/// The bonus for a run of line-clearing locks, by the length of the run
/// less one; the last entry serves every longer run. There is no bonus
/// where there is no run.
#[derive(Clone, Copy, Debug, PartialEq, Eq, Structural)]
pub struct ComboTable {
    pub c0: u8,
    pub c1: u8,
    pub c2: u8,
    pub c3: u8,
    pub c4: u8,
    pub c5: u8,
    pub c6: u8,
    pub c7: u8,
    pub c8: u8,
    pub c9: u8,
    pub c10: u8,
    pub c11: u8,
    pub c12_plus: u8,
}

impl AttackTable {
    /// The attack table of a game that was not configured.
    pub open spec fn default_spec() -> AttackTable {
        AttackTable {
            _0_lines: 0,
            _1_line_single: 0,
            _2_lines_double: 1,
            _3_lines_triple: 2,
            _4_lines: 4,
            t_spin_double: 4,
            t_spin_triple: 6,
            t_spin_single: 2,
            t_spin_mini_single: 0,
            perfect_clear: 10,
            back_to_back_bonus: 1,
        }
    }

    /// The attack for the lines cleared, before any bonus: the T-spin
    /// entries where the lock was a T-spin that cleared something, the
    /// plain entries otherwise. Three lines or more count as a T-spin
    /// triple, four or more as four.
    pub open spec fn base(self, cleared: int, t_spin: bool) -> int {
        if t_spin && cleared > 0 {
            if cleared == 1 {
                self.t_spin_single as int
            } else if cleared == 2 {
                self.t_spin_double as int
            } else {
                self.t_spin_triple as int
            }
        } else if cleared <= 0 {
            self._0_lines as int
        } else if cleared == 1 {
            self._1_line_single as int
        } else if cleared == 2 {
            self._2_lines_double as int
        } else if cleared == 3 {
            self._3_lines_triple as int
        } else {
            self._4_lines as int
        }
    }

    /// The attack for the lines cleared, before any bonus.
    pub fn base_attack(&self, cleared: usize, t_spin: bool) -> (a: u32)
        ensures
            a == self.base(cleared as int, t_spin),
            a <= 255,
    {
        if t_spin && cleared > 0 {
            match cleared {
                1 => self.t_spin_single as u32,
                2 => self.t_spin_double as u32,
                _ => self.t_spin_triple as u32,
            }
        } else {
            match cleared {
                0 => self._0_lines as u32,
                1 => self._1_line_single as u32,
                2 => self._2_lines_double as u32,
                3 => self._3_lines_triple as u32,
                _ => self._4_lines as u32,
            }
        }
    }
}

impl ComboTable {
    /// The combo table of a game that was not configured.
    pub open spec fn default_spec() -> ComboTable {
        ComboTable {
            c0: 0,
            c1: 0,
            c2: 1,
            c3: 1,
            c4: 1,
            c5: 2,
            c6: 2,
            c7: 3,
            c8: 3,
            c9: 4,
            c10: 4,
            c11: 4,
            c12_plus: 5,
        }
    }

    /// The entry at place `i`; every place from 12 on is the last entry.
    pub open spec fn entry(self, i: int) -> int {
        if i <= 0 {
            self.c0 as int
        } else if i == 1 {
            self.c1 as int
        } else if i == 2 {
            self.c2 as int
        } else if i == 3 {
            self.c3 as int
        } else if i == 4 {
            self.c4 as int
        } else if i == 5 {
            self.c5 as int
        } else if i == 6 {
            self.c6 as int
        } else if i == 7 {
            self.c7 as int
        } else if i == 8 {
            self.c8 as int
        } else if i == 9 {
            self.c9 as int
        } else if i == 10 {
            self.c10 as int
        } else if i == 11 {
            self.c11 as int
        } else {
            self.c12_plus as int
        }
    }

    /// The bonus for a combo count: the entry at the count less one. A
    /// count of zero, which is what a lock that cleared nothing leaves,
    /// earns no bonus.
    pub open spec fn bonus(self, combo: int) -> int {
        if combo >= 1 {
            self.entry(combo - 1)
        } else {
            0
        }
    }

    /// The bonus for a combo count.
    pub fn combo_bonus(&self, combo: u32) -> (b: u32)
        ensures
            b == self.bonus(combo as int),
            b <= 255,
    {
        if combo == 0 {
            return 0;
        }
        let combo_idx: u32 = combo - 1;
        let b: u8 = match combo_idx {
            0 => self.c0,
            1 => self.c1,
            2 => self.c2,
            3 => self.c3,
            4 => self.c4,
            5 => self.c5,
            6 => self.c6,
            7 => self.c7,
            8 => self.c8,
            9 => self.c9,
            10 => self.c10,
            11 => self.c11,
            _ => self.c12_plus,
        };
        b as u32
    }
}

/// The attack table of a game that was not configured.
pub fn default_attack_table() -> (t: AttackTable)
    ensures
        t == AttackTable::default_spec(),
{
    AttackTable {
        _0_lines: 0,
        _1_line_single: 0,
        _2_lines_double: 1,
        _3_lines_triple: 2,
        _4_lines: 4,
        t_spin_double: 4,
        t_spin_triple: 6,
        t_spin_single: 2,
        t_spin_mini_single: 0,
        perfect_clear: 10,
        back_to_back_bonus: 1,
    }
}

/// The combo table of a game that was not configured.
pub fn default_combo_table() -> (t: ComboTable)
    ensures
        t == ComboTable::default_spec(),
{
    ComboTable {
        c0: 0,
        c1: 0,
        c2: 1,
        c3: 1,
        c4: 1,
        c5: 2,
        c6: 2,
        c7: 3,
        c8: 3,
        c9: 4,
        c10: 4,
        c11: 4,
        c12_plus: 5,
    }
}

} // verus!
