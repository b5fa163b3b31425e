//! The simulation of a paddle-and-ball arcade scene: building the scene,
//! steering the paddle from the movement keys, and moving every body by its
//! velocity on each fixed tick.
pub mod config;
pub mod geometry;
pub mod laws;
pub mod systems;
pub mod world;
