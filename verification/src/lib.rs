//! Verified rules of a Breakout game: the game's states, score and lives, the
//! brick grid and which brick edges tear when a neighbour is destroyed, ball
//! reflection, the arena geometry, seeds and random streams for torn outlines,
//! and the decoding of images supplied by the embedding page.

pub mod arena;
pub mod board;
pub mod collision;
pub mod game;
pub mod image;
pub mod layout;
pub mod mesh;
pub mod tear;
pub mod util;
