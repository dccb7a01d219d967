//! Gameplay core of a side-scrolling obstacle-avoidance arcade game.
//!
//! A player body falls under gravity and rises on input; obstacles with a
//! randomly placed gap stream in from the right while ground and background
//! strips scroll by. This crate holds the rules of that game as verified
//! functions over plain records: the two-state machine, the handling of
//! input pulses, the reset after a crash, scoring, obstacle generation and
//! reclamation, and the wraparound of the scrolling strips.
//!
//! All lengths, positions and speeds are fixed-point integers, see
//! [`units`]. Rendering, physics integration and input sampling belong to
//! the engine around this crate, which hands in plain values and takes plain
//! values back.

pub mod units;
pub mod state;
pub mod text;
pub mod timer;
pub mod component;
pub mod world;
pub mod system;
