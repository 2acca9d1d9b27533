//! The piece in play.

use vstd::prelude::*;
use crate::piece::{Point, Rotation, Tetromino};
use crate::shape::{shape_blocks, shape_points};

verus! {

/// The time a piece may rest on the ground before it locks, in microseconds.
pub const LOCK_DELAY_US: u64 = 500_000;

/// How often a grounded piece may restart its lock delay by moving.
pub const MOVE_RESETS: u8 = 15;

/// The column at which a piece enters the board.
pub const SPAWN_X: i32 = 4;

/// The row at which a piece enters the board: its lowest cells sit on the
/// top visible row.
pub const SPAWN_Y: i32 = 19;

/// The piece in play: what it is, how it is turned and where it stands,
/// with the state of its lock delay.
#[derive(Clone, Copy, Debug, PartialEq, Eq, Structural)]
pub struct ActivePiece {
    pub piece: Tetromino,
    pub rotation: Rotation,
    pub x: i32,
    pub y: i32,
    /// Microseconds left before the piece locks once it rests on the ground.
    pub lock_timer: u64,
    pub move_resets: u8,
}

impl ActivePiece {
    /// A piece as it enters the board.
    pub open spec fn spawned(piece: Tetromino) -> ActivePiece {
        ActivePiece {
            piece,
            rotation: Rotation::Spawn,
            x: SPAWN_X,
            y: SPAWN_Y,
            lock_timer: LOCK_DELAY_US,
            move_resets: MOVE_RESETS,
        }
    }

    /// The offsets of the four cells.
    pub open spec fn points(self) -> Seq<Point> {
        shape_points(self.piece, self.rotation)
    }

    /// A piece as it enters the board: at the spawn point, not turned, with
    /// the full lock delay and all move resets.
    pub fn new(piece: Tetromino) -> (ap: ActivePiece)
        ensures
            ap == Self::spawned(piece),
    {
        ActivePiece {
            piece,
            rotation: Rotation::Spawn,
            x: SPAWN_X,
            y: SPAWN_Y,
            lock_timer: LOCK_DELAY_US,
            move_resets: MOVE_RESETS,
        }
    }

    /// The offsets of the four cells in the piece's orientation.
    pub fn blocks(&self) -> (blocks: [Point; 4])
        ensures
            blocks@ == self.points(),
    {
        shape_blocks(self.piece, self.rotation)
    }
}

} // verus!
