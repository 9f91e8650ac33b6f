//! The decisions behind a small real-time renderer: what each frame holds,
//! how the animation advances, and how window events are answered.
//!
//! Everything here works on exact values (integers, fractions of a turn and
//! decimal fixed-point numbers), so that each rule can be stated and proved.
//! Turning those values into binary floating point, building matrices from
//! them and talking to the GPU is left to the program around this library.

pub mod transform;
pub mod units;
pub mod animation;
pub mod scene;
pub mod shell;
pub mod mesh;
