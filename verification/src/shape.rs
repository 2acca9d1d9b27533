//! The cell offsets of every piece in every orientation.
//!
//! `I` and `O` turn about a grid intersection and are given by tables; the
//! other five turn about the centre of one of their cells, so their shapes
//! follow from the spawn shape by a quarter-turn transform.

use vstd::prelude::*;
use crate::piece::{Point, Rotation, Tetromino};

verus! {

/// The offset `(x, y)`.
pub open spec fn pt(x: int, y: int) -> Point {
    Point { x: x as i8, y: y as i8 }
}

/// An offset turned about `(0, 0)` into the given orientation: a clockwise
/// quarter turn sends `(x, y)` to `(y, -x)`.
pub open spec fn turned(p: Point, rot: Rotation) -> Point {
    match rot {
        Rotation::Spawn => p,
        Rotation::Right => pt(p.y as int, -p.x),
        Rotation::Reverse => pt(-p.x, -p.y),
        Rotation::Left => pt(-p.y, p.x as int),
    }
}

/// The four cells of a piece in its spawn orientation.
pub open spec fn spawn_points(piece: Tetromino) -> Seq<Point> {
    match piece {
        Tetromino::I => seq![pt(-1, 0), pt(0, 0), pt(1, 0), pt(2, 0)],
        Tetromino::O => seq![pt(0, 0), pt(1, 0), pt(0, 1), pt(1, 1)],
        Tetromino::T => seq![pt(-1, 0), pt(0, 0), pt(1, 0), pt(0, 1)],
        Tetromino::J => seq![pt(-1, 0), pt(0, 0), pt(1, 0), pt(-1, 1)],
        Tetromino::L => seq![pt(-1, 0), pt(0, 0), pt(1, 0), pt(1, 1)],
        Tetromino::S => seq![pt(-1, 0), pt(0, 0), pt(0, 1), pt(1, 1)],
        Tetromino::Z => seq![pt(-1, 1), pt(0, 1), pt(0, 0), pt(1, 0)],
    }
}

/// The four cells of `I` in each orientation: a row at `y = 0`, a column at
/// `x = 1`, a row at `y = -1`, a column at `x = 0`.
pub open spec fn i_points(rot: Rotation) -> Seq<Point> {
    match rot {
        Rotation::Spawn => seq![pt(-1, 0), pt(0, 0), pt(1, 0), pt(2, 0)],
        Rotation::Right => seq![pt(1, 1), pt(1, 0), pt(1, -1), pt(1, -2)],
        Rotation::Reverse => seq![pt(-1, -1), pt(0, -1), pt(1, -1), pt(2, -1)],
        Rotation::Left => seq![pt(0, 1), pt(0, 0), pt(0, -1), pt(0, -2)],
    }
}

/// The four cells of `O` in each orientation.
pub open spec fn o_points(rot: Rotation) -> Seq<Point> {
    match rot {
        Rotation::Spawn => seq![pt(0, 0), pt(1, 0), pt(0, 1), pt(1, 1)],
        Rotation::Right => seq![pt(1, 0), pt(1, 1), pt(2, 0), pt(2, 1)],
        Rotation::Reverse => seq![pt(1, -1), pt(2, -1), pt(1, 0), pt(2, 0)],
        Rotation::Left => seq![pt(0, -1), pt(1, -1), pt(0, 0), pt(1, 0)],
    }
}

/// The four cell offsets of a piece in an orientation.
pub open spec fn shape_points(piece: Tetromino, rot: Rotation) -> Seq<Point> {
    match piece {
        Tetromino::I => i_points(rot),
        Tetromino::O => o_points(rot),
        _ => Seq::new(4, |i: int| turned(spawn_points(piece)[i], rot)),
    }
}

/// Where the placement protocol anchors a piece, relative to the engine's
/// position of it.
pub open spec fn anchor_point(piece: Tetromino, rot: Rotation) -> Point {
    match piece {
        Tetromino::I => match rot {
            Rotation::Spawn => pt(0, 0),
            Rotation::Right => pt(1, 1),
            Rotation::Reverse => pt(1, -1),
            Rotation::Left => pt(0, -1),
        },
        Tetromino::O => match rot {
            Rotation::Spawn => pt(0, 0),
            Rotation::Right => pt(1, 1),
            Rotation::Reverse => pt(2, 0),
            Rotation::Left => pt(1, -1),
        },
        _ => pt(0, 0),
    }
}

/// An offset turned about `(0, 0)` into the given orientation.
pub fn rotate_point(p: Point, rot: Rotation) -> (r: Point)
    requires
        -128 < p.x,
        -128 < p.y,
    ensures
        r == turned(p, rot),
{
    match rot {
        Rotation::Spawn => p,
        Rotation::Right => Point { x: p.y, y: -p.x },
        Rotation::Reverse => Point { x: -p.x, y: -p.y },
        Rotation::Left => Point { x: -p.y, y: p.x },
    }
}

/// The four cell offsets of a piece in an orientation.
pub fn shape_blocks(piece: Tetromino, rotation: Rotation) -> (blocks: [Point; 4])
    ensures
        blocks@ == shape_points(piece, rotation),
{
    let blocks = match piece {
        Tetromino::I => match rotation {
            Rotation::Spawn => [
                Point { x: -1, y: 0 },
                Point { x: 0, y: 0 },
                Point { x: 1, y: 0 },
                Point { x: 2, y: 0 },
            ],
            Rotation::Right => [
                Point { x: 1, y: 1 },
                Point { x: 1, y: 0 },
                Point { x: 1, y: -1 },
                Point { x: 1, y: -2 },
            ],
            Rotation::Reverse => [
                Point { x: -1, y: -1 },
                Point { x: 0, y: -1 },
                Point { x: 1, y: -1 },
                Point { x: 2, y: -1 },
            ],
            Rotation::Left => [
                Point { x: 0, y: 1 },
                Point { x: 0, y: 0 },
                Point { x: 0, y: -1 },
                Point { x: 0, y: -2 },
            ],
        },
        Tetromino::O => match rotation {
            Rotation::Spawn => [
                Point { x: 0, y: 0 },
                Point { x: 1, y: 0 },
                Point { x: 0, y: 1 },
                Point { x: 1, y: 1 },
            ],
            Rotation::Right => [
                Point { x: 1, y: 0 },
                Point { x: 1, y: 1 },
                Point { x: 2, y: 0 },
                Point { x: 2, y: 1 },
            ],
            Rotation::Reverse => [
                Point { x: 1, y: -1 },
                Point { x: 2, y: -1 },
                Point { x: 1, y: 0 },
                Point { x: 2, y: 0 },
            ],
            Rotation::Left => [
                Point { x: 0, y: -1 },
                Point { x: 1, y: -1 },
                Point { x: 0, y: 0 },
                Point { x: 1, y: 0 },
            ],
        },
        _ => {
            let base = match piece {
                Tetromino::T => [
                    Point { x: -1, y: 0 },
                    Point { x: 0, y: 0 },
                    Point { x: 1, y: 0 },
                    Point { x: 0, y: 1 },
                ],
                Tetromino::J => [
                    Point { x: -1, y: 0 },
                    Point { x: 0, y: 0 },
                    Point { x: 1, y: 0 },
                    Point { x: -1, y: 1 },
                ],
                Tetromino::L => [
                    Point { x: -1, y: 0 },
                    Point { x: 0, y: 0 },
                    Point { x: 1, y: 0 },
                    Point { x: 1, y: 1 },
                ],
                Tetromino::S => [
                    Point { x: -1, y: 0 },
                    Point { x: 0, y: 0 },
                    Point { x: 0, y: 1 },
                    Point { x: 1, y: 1 },
                ],
                _ => [
                    Point { x: -1, y: 1 },
                    Point { x: 0, y: 1 },
                    Point { x: 0, y: 0 },
                    Point { x: 1, y: 0 },
                ],
            };
            assert(base@ =~= spawn_points(piece));
            [
                rotate_point(base[0], rotation),
                rotate_point(base[1], rotation),
                rotate_point(base[2], rotation),
                rotate_point(base[3], rotation),
            ]
        },
    };
    assert(blocks@ =~= shape_points(piece, rotation));
    blocks
}

/// The four cell offsets of a piece in its spawn orientation.
pub fn spawn_blocks(piece: Tetromino) -> (blocks: [Point; 4])
    ensures
        blocks@ == shape_points(piece, Rotation::Spawn),
{
    shape_blocks(piece, Rotation::Spawn)
}

/// Where the placement protocol anchors a piece, relative to the engine's
/// position of it.
pub fn tbp_anchor_offset(piece: Tetromino, rotation: Rotation) -> (p: Point)
    ensures
        p == anchor_point(piece, rotation),
{
    match piece {
        Tetromino::I => match rotation {
            Rotation::Spawn => Point { x: 0, y: 0 },
            Rotation::Right => Point { x: 1, y: 1 },
            Rotation::Reverse => Point { x: 1, y: -1 },
            Rotation::Left => Point { x: 0, y: -1 },
        },
        Tetromino::O => match rotation {
            Rotation::Spawn => Point { x: 0, y: 0 },
            Rotation::Right => Point { x: 1, y: 1 },
            Rotation::Reverse => Point { x: 2, y: 0 },
            Rotation::Left => Point { x: 1, y: -1 },
        },
        _ => Point { x: 0, y: 0 },
    }
}

/// A shape has exactly four cells, no two of them the same, and every
/// offset lies within two cells of the piece's position.
pub proof fn lemma_shape_cells(piece: Tetromino, rot: Rotation)
    ensures
        shape_points(piece, rot).len() == 4,
        shape_points(piece, rot).no_duplicates(),
        forall|i: int|
            0 <= i < 4 ==> -1 <= (#[trigger] shape_points(piece, rot)[i]).x <= 2 && -2
                <= shape_points(piece, rot)[i].y <= 1,
{
    let s = shape_points(piece, rot);
    assert(s.len() == 4);
    assert(s[0] != s[1] && s[0] != s[2] && s[0] != s[3] && s[1] != s[2] && s[1] != s[3] && s[2]
        != s[3]);
}

/// In its spawn orientation every piece has its spawn shape.
pub proof fn lemma_spawn_shape(piece: Tetromino)
    ensures
        shape_points(piece, Rotation::Spawn) == spawn_points(piece),
{
    assert(shape_points(piece, Rotation::Spawn) =~= spawn_points(piece));
}

/// The spawn shapes of `S` and `Z` as sets of cells.
pub proof fn lemma_s_z_spawn_cells()
    ensures
        shape_points(Tetromino::S, Rotation::Spawn).to_set() == set![
            pt(-1, 0),
            pt(0, 0),
            pt(0, 1),
            pt(1, 1),
        ],
        shape_points(Tetromino::Z, Rotation::Spawn).to_set() == set![
            pt(-1, 1),
            pt(0, 1),
            pt(0, 0),
            pt(1, 0),
        ],
{
    let s = shape_points(Tetromino::S, Rotation::Spawn);
    let z = shape_points(Tetromino::Z, Rotation::Spawn);
    lemma_spawn_shape(Tetromino::S);
    lemma_spawn_shape(Tetromino::Z);
    assert(s[0] == pt(-1, 0) && s[1] == pt(0, 0) && s[2] == pt(0, 1) && s[3] == pt(1, 1));
    assert(z[0] == pt(-1, 1) && z[1] == pt(0, 1) && z[2] == pt(0, 0) && z[3] == pt(1, 0));
    assert(s.to_set() =~= set![pt(-1, 0), pt(0, 0), pt(0, 1), pt(1, 1)]);
    assert(z.to_set() =~= set![pt(-1, 1), pt(0, 1), pt(0, 0), pt(1, 0)]);
}

} // verus!
