//! A small real-time snake game: a snake walks a bounded grid, grows by
//! eating food, and the game ends on self- or wall-collision, restarting
//! automatically after a short delay. This crate is the simulation core;
//! rendering and input polling live outside it and talk to the core
//! through plain values.

pub mod game;
pub mod snake;
