//! Game logic of a side-scrolling "flappy" arcade game (player kinematics,
//! obstacle generation, collision and the game-mode state machine), and the
//! decision logic of a grid roguelike's player input.
//!
//! Lengths are in world units (pixels of the sprite console); time is in
//! whole milliseconds; velocities are fixed-point, see [`player`].

pub mod geometry;
pub mod random;
pub mod player;
pub mod obstacle;
pub mod game;
pub mod input;

use vstd::prelude::*;

verus! {

/// Width of the play field.
pub const SCREEN_WIDTH: i32 = 160;

/// Height of the play field.
pub const SCREEN_HEIGHT: i32 = 128;

/// Horizontal screen column at which the player is drawn.
pub const RENDER_OFFSET_X: i32 = 5;

/// Side length of one sprite.
pub const SPRITE_SIZE: i32 = 4;

/// The keys that the game logic tells apart; every other key is `Other`.
#[derive(Clone, Copy, Debug, PartialEq, Eq, Structural)]
pub enum Key {
    Space,
    P,
    Q,
    Escape,
    A,
    D,
    W,
    S,
    Other,
}

} // verus!
