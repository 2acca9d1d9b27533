//! The wall-kick tables of the Super Rotation System.
//!
//! After a quarter turn the engine tries a short list of offsets and
//! keeps the first that leaves the piece free of the board. Offsets are in
//! board coordinates, `y` growing upward.

use vstd::prelude::*;
use crate::piece::{Rotation, Tetromino};

verus! {

/// The offset `(dx, dy)`.
pub open spec fn kick(dx: int, dy: int) -> (i32, i32) {
    (dx as i32, dy as i32)
}

/// The row of the tables for a quarter turn `from -> to`. A pair of
/// orientations that is no quarter turn apart shares the row of
/// `Spawn -> Right`.
pub open spec fn transition_row(from: Rotation, to: Rotation) -> int {
    match (from, to) {
        (Rotation::Spawn, Rotation::Right) => 0,
        (Rotation::Right, Rotation::Spawn) => 1,
        (Rotation::Right, Rotation::Reverse) => 2,
        (Rotation::Reverse, Rotation::Right) => 3,
        (Rotation::Reverse, Rotation::Left) => 4,
        (Rotation::Left, Rotation::Reverse) => 5,
        (Rotation::Left, Rotation::Spawn) => 6,
        (Rotation::Spawn, Rotation::Left) => 7,
        _ => 0,
    }
}

/// The table shared by `J`, `L`, `S`, `T` and `Z`.
pub open spec fn jlstz_kicks(row: int) -> Seq<(i32, i32)> {
    if row == 0 || row == 3 {
        seq![kick(0, 0), kick(-1, 0), kick(-1, 1), kick(0, -2), kick(-1, -2)]
    } else if row == 1 || row == 2 {
        seq![kick(0, 0), kick(1, 0), kick(1, -1), kick(0, 2), kick(1, 2)]
    } else if row == 4 || row == 7 {
        seq![kick(0, 0), kick(1, 0), kick(1, 1), kick(0, -2), kick(1, -2)]
    } else {
        seq![kick(0, 0), kick(-1, 0), kick(-1, -1), kick(0, 2), kick(-1, 2)]
    }
}

/// The table of `I`.
pub open spec fn i_kicks(row: int) -> Seq<(i32, i32)> {
    if row == 0 || row == 5 {
        seq![kick(0, 0), kick(-2, 0), kick(1, 0), kick(-2, -1), kick(1, 2)]
    } else if row == 1 || row == 4 {
        seq![kick(0, 0), kick(2, 0), kick(-1, 0), kick(2, 1), kick(-1, -2)]
    } else if row == 2 || row == 7 {
        seq![kick(0, 0), kick(-1, 0), kick(2, 0), kick(-1, 2), kick(2, -1)]
    } else {
        seq![kick(0, 0), kick(1, 0), kick(-2, 0), kick(1, -2), kick(-2, 1)]
    }
}

/// The ordered kick candidates of a piece for the turn `from -> to`. `O`
/// has the single candidate `(0, 0)`.
pub open spec fn kick_offsets(piece: Tetromino, from: Rotation, to: Rotation) -> Seq<(i32, i32)> {
    match piece {
        Tetromino::I => i_kicks(transition_row(from, to)),
        Tetromino::O => seq![kick(0, 0)],
        _ => jlstz_kicks(transition_row(from, to)),
    }
}

#[derive(Default)]
/// The kick tables, by piece and turn.
pub struct KickTable;

impl KickTable {
    /// The ordered kick candidates of a piece for the turn `from -> to`.
    pub fn kicks(piece: Tetromino, from: Rotation, to: Rotation) -> (list: Vec<(i32, i32)>)
        ensures
            list@ == kick_offsets(piece, from, to),
    {
        let row: u8 = match (from, to) {
            (Rotation::Spawn, Rotation::Right) => 0,
            (Rotation::Right, Rotation::Spawn) => 1,
            (Rotation::Right, Rotation::Reverse) => 2,
            (Rotation::Reverse, Rotation::Right) => 3,
            (Rotation::Reverse, Rotation::Left) => 4,
            (Rotation::Left, Rotation::Reverse) => 5,
            (Rotation::Left, Rotation::Spawn) => 6,
            (Rotation::Spawn, Rotation::Left) => 7,
            _ => 0,
        };
        assert(row == transition_row(from, to));
        let list = match piece {
            Tetromino::I => match row {
                0 | 5 => vec![(0, 0), (-2, 0), (1, 0), (-2, -1), (1, 2)],
                1 | 4 => vec![(0, 0), (2, 0), (-1, 0), (2, 1), (-1, -2)],
                2 | 7 => vec![(0, 0), (-1, 0), (2, 0), (-1, 2), (2, -1)],
                _ => vec![(0, 0), (1, 0), (-2, 0), (1, -2), (-2, 1)],
            },
            Tetromino::O => vec![(0, 0)],
            _ => match row {
                0 | 3 => vec![(0, 0), (-1, 0), (-1, 1), (0, -2), (-1, -2)],
                1 | 2 => vec![(0, 0), (1, 0), (1, -1), (0, 2), (1, 2)],
                4 | 7 => vec![(0, 0), (1, 0), (1, 1), (0, -2), (1, -2)],
                _ => vec![(0, 0), (-1, 0), (-1, -1), (0, 2), (-1, 2)],
            },
        };
        assert(list@ =~= kick_offsets(piece, from, to));
        list
    }
}

/// Every kick list starts with `(0, 0)`, has five candidates (one for `O`),
/// and moves the piece by at most two cells each way.
pub proof fn lemma_kick_list(piece: Tetromino, from: Rotation, to: Rotation)
    ensures
        kick_offsets(piece, from, to).len() == (if piece == Tetromino::O {
            1int
        } else {
            5int
        }),
        kick_offsets(piece, from, to)[0] == kick(0, 0),
        forall|i: int|
            0 <= i < kick_offsets(piece, from, to).len() ==> -2 <= (#[trigger] kick_offsets(
                piece,
                from,
                to,
            )[i]).0 <= 2 && -2 <= kick_offsets(piece, from, to)[i].1 <= 2,
{
}

/// Turning back undoes a kick: the candidates of `to -> from` are those of
/// `from -> to` with both signs reflected.
pub proof fn lemma_kicks_reflect(piece: Tetromino, from: Rotation, to: Rotation, i: int)
    requires
        to == from.cw() || to == from.ccw(),
        0 <= i < kick_offsets(piece, from, to).len(),
    ensures
        kick_offsets(piece, to, from).len() == kick_offsets(piece, from, to).len(),
        kick_offsets(piece, to, from)[i].0 == -kick_offsets(piece, from, to)[i].0,
        kick_offsets(piece, to, from)[i].1 == -kick_offsets(piece, from, to)[i].1,
{
}

/// Three rows of the tables, written out.
pub proof fn lemma_kick_rows()
    ensures
        kick_offsets(Tetromino::J, Rotation::Spawn, Rotation::Right) == seq![
            kick(0, 0),
            kick(-1, 0),
            kick(-1, 1),
            kick(0, -2),
            kick(-1, -2),
        ],
        kick_offsets(Tetromino::I, Rotation::Spawn, Rotation::Right) == seq![
            kick(0, 0),
            kick(-2, 0),
            kick(1, 0),
            kick(-2, -1),
            kick(1, 2),
        ],
        kick_offsets(Tetromino::J, Rotation::Right, Rotation::Spawn) == seq![
            kick(0, 0),
            kick(1, 0),
            kick(1, -1),
            kick(0, 2),
            kick(1, 2),
        ],
{
}

} // verus!
