//! Kinematic movement, collision resolution and player control for a 2D
//! tile-based platformer, on fixed-point integer coordinates.
pub mod camera;
pub mod game;
pub mod geometry;
pub mod input;
pub mod level;
pub mod physics;
pub mod player;
pub mod sides;
pub mod time;
pub mod world;
