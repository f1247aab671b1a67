//! A small tick-driven 2D simulation: sprite-sheet animation, simple
//! physics for one controlled body, and alpha-blended compositing into an
//! RGBA8 frame buffer.
//!
//! Positions and velocities are fixed-point numbers in ten-thousandths of a
//! world pixel (see `SUBUNITS`), so every tick is exact.

pub mod clock;
pub mod raster;
pub mod animation;
pub mod sprite;
pub mod physics;
pub mod render;
pub mod world;

pub use animation::Animation;
pub use sprite::{Sprite, SpriteSheet};
pub use world::{Key, World};
pub use physics::{
    DEAD_ZONE, JUMP_VELOCITY, MOTION_BOUND, SUBUNITS, TERMINAL_VELOCITY, WORLD_HEIGHT, WORLD_WIDTH,
};
pub use render::FRAME_BYTES;
pub use clock::get_current_time;
pub use raster::{Image, Rgba, blend, blend_channel};
