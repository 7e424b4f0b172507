//! The things a scene is made of.
pub mod background;
pub mod bird;
pub mod button;
pub mod ground;
pub mod pipes;
pub mod pool;
pub mod scoreboard;
