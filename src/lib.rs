//! Simulation core of a small side-scrolling platformer: a player that walks
//! and jumps along the ground, monsters that drop in and patrol, and the rules
//! that decide what happens when the two meet.
//!
//! Every coordinate is an integer window coordinate: a logical pixel of the
//! 320 x 240 screen times the display scale.
mod rng;

pub mod entity;
pub mod gui;
pub mod game;
pub mod laws;
pub mod settings;
