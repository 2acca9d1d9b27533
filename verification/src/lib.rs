//! A deterministic two-player stacker engine: board and piece kinematics
//! with SRS rotation, the versus coordinator with its attack and garbage
//! exchange, and an adapter for an outside bot that speaks in placements.
//!
//! Every executable function carries a contract checked by Verus, stated
//! over a board as a grid of colour codes, a piece as a pose on it, and
//! plain numbers. Time is measured in whole microseconds throughout. What
//! chance decides comes from the `rand` crate through the three functions
//! of [`rng`]; their contracts are the only ones taken on trust, with that
//! of the file extension in [`files`].
//!
//! The modules, from the ground up:
//!
//! - [`piece`], [`shape`], [`kicks`]: the pieces, their cells and their
//!   wall kicks;
//! - [`board`], [`active`], [`motion`]: the grid, the piece in play, and
//!   where a piece may go;
//! - [`rng`], [`randomizer`]: chance, and the sources of upcoming pieces;
//! - [`settings`], [`input`], [`stats`]: what a game is configured with,
//!   what a player holds down, and what a player has done;
//! - [`player`], [`steer`]: one side of a game, and what a tick does to
//!   its piece;
//! - [`versus`], [`advance`], [`bot`]: the game of two, its tick, and the
//!   built-in stand-in for the second player;
//! - [`protocol`], [`snapshot`]: what an outside bot and a front end see
//!   of a game;
//! - [`files`]: what a server of the game's files decides from text.

pub mod piece;
pub mod shape;
pub mod kicks;
pub mod board;
pub mod active;
pub mod motion;
pub mod rng;
pub mod randomizer;
pub mod settings;
pub mod input;
pub mod stats;
pub mod player;
pub mod steer;
pub mod versus;
pub mod advance;
pub mod bot;
pub mod protocol;
pub mod snapshot;
pub mod files;

pub use input::{InputFrame, InputState};
pub use piece::{Point, Rotation, Tetromino};
pub use protocol::AppliedMoveResult;
pub use randomizer::RandomizerKind;
pub use settings::{
    AttackTable, ComboTable, ControlBindings, GameSettings, GridStyle, SoftDropSpeed,
};
pub use snapshot::{FrameView, PlayerStatsView, PlayerView};
pub use stats::PlayerStats;
pub use versus::Versus;
