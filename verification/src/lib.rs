//! Deterministic simulation engine for a grid game: a player-controlled
//! organism grows by consuming targets while avoiding the grid border and
//! its own body. The engine is a pure state machine; rendering and input
//! polling live outside it.

pub mod game;
pub mod menu;
