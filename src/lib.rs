//! Note-timeline scheduling, hit judgment and tone asset encoding for a
//! keyboard rhythm game.
pub mod notes;
pub mod engine;
pub mod session;
pub mod wave;
pub mod synth;
pub mod piano;
