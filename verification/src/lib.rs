//! Core of a small side-scrolling arcade shooter: a fixed-timestep scheduler,
//! double-buffered input, sprites and animations, and the per-frame rules of
//! the menu and game screens.
//!
//! Everything here is exact integer arithmetic. Lengths are counted in
//! millionths of a pixel and times in microseconds, so a speed of `v` pixels
//! per second moves an entity by exactly `v` length units per time unit.
//! A rate that need not be whole is counted in millionths per second: a
//! frame rate in millionths of a frame, a drawn speed in length units.
//! Drawing is described as a list of commands that a backend replays.

pub mod phi;
pub mod views;
