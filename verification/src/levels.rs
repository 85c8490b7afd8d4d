//! Audio channel levels: classifying raw sampler readings and mapping a
//! level to an LED activation width.
//!
//! The host sampler reports a raw level in `[0, 255]`, or `-1` when it has no
//! audio data for the channel yet. A level maps to a meter width by
//! `floor(level / 255 * 15)`, computed exactly in integers.

use vstd::prelude::*;

verus! {

/// One channel's reading for a tick: a level quantized to `[0, 255]`, or
/// nothing when the host has no audio data yet.
#[derive(Clone, Copy, Debug, PartialEq, Eq)]
pub enum ChannelSample {
    /// A level; 255 stands for full scale.
    Level(u8),
    /// The host reported the unavailable sentinel.
    Unavailable,
}

/// Turns a raw sampler reading into a tagged sample. The host promises a
/// reading in `[0, 255]` or the sentinel `-1`.
pub fn classify_sample(raw: i32) -> (s: ChannelSample)
    requires
        raw == -1 || 0 <= raw <= 255,
    ensures
        raw == -1 ==> s == ChannelSample::Unavailable,
        0 <= raw <= 255 ==> s == ChannelSample::Level(raw as u8),
{
    if raw == -1 {
        ChannelSample::Unavailable
    } else {
        ChannelSample::Level(raw as u8)
    }
}

/// The meter width of a level: `floor(level / 255 * 15)`.
pub open spec fn width_of(level: int) -> int {
    level * 15 / 255
}

/// Maps a channel level to the number of lit LEDs on one 15-LED meter half:
/// `floor(level / 255 * 15)`, always in `[0, 15]`, with a silent channel
/// lighting nothing and a full-scale channel lighting the whole half.
pub fn width_of_level(level: u8) -> (w: usize)
    ensures
        w == width_of(level as int),
        w <= 15,
        level == 0 ==> w == 0,
        level == 255 ==> w == 15,
{
    (level as usize) * 15 / 255
}

} // verus!
