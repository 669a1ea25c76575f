//! A single-voice frequency-modulation synthesizer core in fixed-point arithmetic.
//!
//! Amplitudes and frequencies are 16.16 fixed-point numbers (`ONE` is unity),
//! angles are fractions of a turn, durations are microseconds and instants are
//! sample counts since the stream began.

pub mod fixed;
pub mod envelope;
pub mod wave;
pub mod param;
pub mod oscillator;
pub mod channel;
pub mod clock;
pub mod voice;
pub mod control;
