//! An audio-reactive lighting engine for an addressable multi-zone LED strip.
//!
//! Once per tick the engine samples two audio channel levels, advances a
//! wrapping hue angle, converts hue/saturation/value triples to RGB colors,
//! and assembles fixed-length per-zone LED buffers ready for submission to a
//! device gateway. Every step is specified and verified: buffer lengths,
//! channel ranges, the hue wrap, and the skip-on-unavailable policy.

pub mod color;
pub mod engine;
pub mod gateway;
pub mod levels;
pub mod zones;

pub use color::Color;
pub use engine::{tick, AnimationState, Frame};
pub use gateway::Device;
pub use levels::ChannelSample;
