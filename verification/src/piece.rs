//! Pieces, orientations and cell offsets.

use vstd::prelude::*;

verus! {

/// One of the seven four-cell pieces.
#[derive(Clone, Copy, Debug, PartialEq, Eq, Structural)]
pub enum Tetromino {
    I,
    J,
    L,
    O,
    S,
    Z,
    T,
}

impl Tetromino {
    /// The seven pieces in their canonical order.
    pub open spec fn all_spec() -> Seq<Tetromino> {
        seq![
            Tetromino::I,
            Tetromino::J,
            Tetromino::L,
            Tetromino::O,
            Tetromino::S,
            Tetromino::Z,
            Tetromino::T,
        ]
    }

    /// The colour code of a piece on the board, 1 to 7.
    pub open spec fn color(self) -> u8 {
        match self {
            Tetromino::I => 1,
            Tetromino::J => 2,
            Tetromino::L => 3,
            Tetromino::O => 4,
            Tetromino::S => 5,
            Tetromino::Z => 6,
            Tetromino::T => 7,
        }
    }

    /// The letter that names a piece on the wire.
    pub open spec fn letter_spec(self) -> char {
        match self {
            Tetromino::I => 'I',
            Tetromino::J => 'J',
            Tetromino::L => 'L',
            Tetromino::O => 'O',
            Tetromino::S => 'S',
            Tetromino::Z => 'Z',
            Tetromino::T => 'T',
        }
    }

    /// The seven pieces in their canonical order.
    pub fn all() -> (pieces: [Tetromino; 7])
        ensures
            pieces@ == Self::all_spec(),
    {
        let pieces = [
            Tetromino::I,
            Tetromino::J,
            Tetromino::L,
            Tetromino::O,
            Tetromino::S,
            Tetromino::Z,
            Tetromino::T,
        ];
        assert(pieces@ =~= Self::all_spec());
        pieces
    }

    /// The colour code of the piece on the board, 1 to 7.
    pub fn color_id(self) -> (c: u8)
        ensures
            c == self.color(),
            1 <= c <= 7,
    {
        match self {
            Tetromino::I => 1,
            Tetromino::J => 2,
            Tetromino::L => 3,
            Tetromino::O => 4,
            Tetromino::S => 5,
            Tetromino::Z => 6,
            Tetromino::T => 7,
        }
    }

    /// The letter that names the piece on the wire.
    pub fn letter(self) -> (c: char)
        ensures
            c == self.letter_spec(),
    {
        match self {
            Tetromino::I => 'I',
            Tetromino::J => 'J',
            Tetromino::L => 'L',
            Tetromino::O => 'O',
            Tetromino::S => 'S',
            Tetromino::Z => 'Z',
            Tetromino::T => 'T',
        }
    }
}

/// Every piece occurs in the canonical list, and its colour is one more than
/// its place there.
pub proof fn lemma_all_pieces(p: Tetromino)
    ensures
        Tetromino::all_spec().len() == 7,
        Tetromino::all_spec().contains(p),
        Tetromino::all_spec()[p.color() - 1] == p,
        Tetromino::all_spec().no_duplicates(),
{
    let s = Tetromino::all_spec();
    assert(s[p.color() - 1] == p);
}

/// The letter shown for a board cell: the piece letter for 1 to 7, `G` for
/// garbage, nothing for an empty cell or an unknown code.
pub open spec fn cell_char(color: u8) -> Option<char> {
    match color {
        1 => Some('I'),
        2 => Some('J'),
        3 => Some('L'),
        4 => Some('O'),
        5 => Some('S'),
        6 => Some('Z'),
        7 => Some('T'),
        8 => Some('G'),
        _ => None,
    }
}

/// The letter shown for a board cell of the given colour code.
pub fn color_to_cell_char(color: u8) -> (c: Option<char>)
    ensures
        c == cell_char(color),
{
    match color {
        1 => Some('I'),
        2 => Some('J'),
        3 => Some('L'),
        4 => Some('O'),
        5 => Some('S'),
        6 => Some('Z'),
        7 => Some('T'),
        8 => Some('G'),
        _ => None,
    }
}

/// A cell that holds a piece shows that piece's letter.
pub proof fn lemma_piece_cell_char(p: Tetromino)
    ensures
        cell_char(p.color()) == Some(p.letter_spec()),
{
}

/// The four orientations, cyclic under quarter turns.
#[derive(Clone, Copy, Debug, PartialEq, Eq, Structural)]
pub enum Rotation {
    Spawn,
    Right,
    Reverse,
    Left,
}

impl Rotation {
    /// The number of clockwise quarter turns from `Spawn`.
    pub open spec fn turns(self) -> int {
        match self {
            Rotation::Spawn => 0,
            Rotation::Right => 1,
            Rotation::Reverse => 2,
            Rotation::Left => 3,
        }
    }

    /// The orientation that is `n` clockwise quarter turns from `Spawn`,
    /// counted modulo four.
    pub open spec fn from_turns(n: int) -> Rotation {
        let r = n % 4;
        if r == 0 {
            Rotation::Spawn
        } else if r == 1 {
            Rotation::Right
        } else if r == 2 {
            Rotation::Reverse
        } else {
            Rotation::Left
        }
    }

    /// The orientation a clockwise quarter turn leads to.
    pub open spec fn cw(self) -> Rotation {
        Self::from_turns(self.turns() + 1)
    }

    /// The orientation a counter-clockwise quarter turn leads to.
    pub open spec fn ccw(self) -> Rotation {
        Self::from_turns(self.turns() + 3)
    }

    /// The orientation a half turn leads to.
    pub open spec fn half(self) -> Rotation {
        Self::from_turns(self.turns() + 2)
    }

    /// The orientation a clockwise quarter turn leads to.
    pub fn rotate_cw(self) -> (r: Rotation)
        ensures
            r == self.cw(),
    {
        match self {
            Rotation::Spawn => Rotation::Right,
            Rotation::Right => Rotation::Reverse,
            Rotation::Reverse => Rotation::Left,
            Rotation::Left => Rotation::Spawn,
        }
    }

    /// The orientation a counter-clockwise quarter turn leads to.
    pub fn rotate_ccw(self) -> (r: Rotation)
        ensures
            r == self.ccw(),
    {
        match self {
            Rotation::Spawn => Rotation::Left,
            Rotation::Left => Rotation::Reverse,
            Rotation::Reverse => Rotation::Right,
            Rotation::Right => Rotation::Spawn,
        }
    }

    /// The orientation a half turn leads to.
    pub fn rotate_180(self) -> (r: Rotation)
        ensures
            r == self.half(),
    {
        match self {
            Rotation::Spawn => Rotation::Reverse,
            Rotation::Reverse => Rotation::Spawn,
            Rotation::Right => Rotation::Left,
            Rotation::Left => Rotation::Right,
        }
    }

    /// The name of the orientation as it is shown to a front end.
    pub open spec fn name_spec(self) -> Seq<char> {
        match self {
            Rotation::Spawn => "Spawn"@,
            Rotation::Right => "Right"@,
            Rotation::Reverse => "Reverse"@,
            Rotation::Left => "Left"@,
        }
    }

    /// The name of the orientation as it is shown to a front end.
    pub fn name(self) -> (s: &'static str)
        ensures
            s@ == self.name_spec(),
    {
        match self {
            Rotation::Spawn => "Spawn",
            Rotation::Right => "Right",
            Rotation::Reverse => "Reverse",
            Rotation::Left => "Left",
        }
    }
}

/// The quarter turns form a ring of four: a clockwise turn undoes a
/// counter-clockwise one, two quarter turns make a half turn, and four
/// clockwise turns come back to the start.
pub proof fn lemma_rotation_ring(r: Rotation)
    ensures
        r.cw().ccw() == r,
        r.ccw().cw() == r,
        r.cw().cw() == r.half(),
        r.ccw().ccw() == r.half(),
        r.half().half() == r,
        r.cw().cw().cw().cw() == r,
        r.ccw().ccw().ccw().ccw() == r,
        r.cw() != r,
        r.ccw() != r,
{
}

/// A cell offset relative to a piece's position; `y` grows upward.
#[derive(Clone, Copy, Debug, PartialEq, Eq, Structural)]
pub struct Point {
    pub x: i8,
    pub y: i8,
}

} // verus!
