//! Control core of a retro sound-effect synthesizer.
//!
//! The crate holds everything about a sound that is decided on integers: the
//! parameter vector in fixed point, the preset recipes that fill it from
//! random draws, and the per-sample sequencing of a playing voice (repeat and
//! arpeggio clocks, envelope stages, oscillator phase, noise table and the
//! phaser's ring cursor). Signal arithmetic is left to the caller.

pub mod random;
pub mod synth;
