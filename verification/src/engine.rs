//! The animation state and the per-tick frame dispatcher.
//!
//! The engine owns one piece of state across ticks: a hue angle in
//! `[0, 360)`. Each tick either runs to completion — advance the hue once,
//! render both zones, hand back a frame for submission — or, when either
//! channel sample is unavailable, is skipped outright with no observable
//! effect.

use vstd::prelude::*;
use crate::color::{hsv_color, Color};
use crate::levels::{width_of, ChannelSample};
use crate::zones::{cpu_zone_seq, front_bar_seq, render_cpu_zone, render_front_bar};

verus! {

/// Device index the front bar buffer is submitted to.
pub const FRONT_BAR_DEVICE: i32 = 1;

/// Device index the cpu zone buffer is submitted to.
pub const CPU_ZONE_DEVICE: i32 = 0;

/// The engine's only cross-tick state: a wrapping hue angle.
pub struct AnimationState {
    hue: u16,
}

impl AnimationState {
    /// The hue angle, in degrees.
    pub closed spec fn hue_angle(&self) -> int {
        self.hue as int
    }

    /// Well-formed: the angle lies in `[0, 360)`, the wrap invariant.
    pub open spec fn wf(&self) -> bool {
        0 <= self.hue_angle() < 360
    }

    /// A fresh state: the angle starts at 0.
    pub fn new() -> (s: AnimationState)
        ensures
            s.wf(),
            s.hue_angle() == 0,
    {
        AnimationState { hue: 0 }
    }

    /// Runtime check of the wrap invariant, for unverified callers.
    pub fn is_wf(&self) -> (b: bool)
        ensures
            b == self.wf(),
    {
        self.hue < 360
    }

    /// The current hue angle.
    pub fn angle(&self) -> (h: u16)
        ensures
            h as int == self.hue_angle(),
    {
        self.hue
    }

    /// Advances the angle by exactly one degree, wrapping from 359 back to
    /// 0, and returns the angle for the current tick: always in `[0, 360)`,
    /// never 360 or more.
    pub fn advance(&mut self) -> (h: u16)
        requires
            old(self).wf(),
        ensures
            final(self).wf(),
            final(self).hue_angle() == (old(self).hue_angle() + 1) % 360,
            h as int == final(self).hue_angle(),
            h < 360,
    {
        self.hue = if self.hue >= 359 {
            0
        } else {
            self.hue + 1
        };
        self.hue
    }
}

/// The set of zone buffers produced by one tick, each paired by position
/// with the device index it targets: the front bar goes to
/// `FRONT_BAR_DEVICE`, the cpu zone to `CPU_ZONE_DEVICE`. Transient:
/// rebuilt from scratch every tick.
pub struct Frame {
    /// The 30-entry front bar buffer.
    pub front: Vec<(i32, Color)>,
    /// The 12-entry cpu zone buffer.
    pub cpu: Vec<(i32, Color)>,
}

/// The louder of the two channel levels, which drives the cpu zone's
/// brightness.
pub open spec fn peak(l: u8, r: u8) -> u8 {
    if l >= r {
        l
    } else {
        r
    }
}

/// What a successfully rendered tick shows, given the tick's hue angle and
/// the two sampled levels: both zone buffers, entry for entry.
pub open spec fn frame_shows(f: Frame, hue: int, l: u8, r: u8) -> bool {
    &&& f.front@ == front_bar_seq(
        width_of(l as int),
        width_of(r as int),
        hsv_color(hue, 255, 255),
    )
    &&& f.cpu@ == cpu_zone_seq(hsv_color(hue, 255, peak(l, r) as int))
}

/// Runs one tick of the frame dispatcher. If either channel sample is
/// unavailable the whole tick is skipped: the hue does not advance and no
/// frame is produced. Otherwise the hue advances exactly once and both zone
/// buffers are rendered at the new angle from the sampled levels.
pub fn tick(state: &mut AnimationState, left: ChannelSample, right: ChannelSample) -> (frame:
    Option<Frame>)
    requires
        old(state).wf(),
    ensures
        final(state).wf(),
        left is Unavailable || right is Unavailable ==> frame is None && *final(state) == *old(
            state,
        ),
        left is Level && right is Level ==> {
            &&& final(state).hue_angle() == (old(state).hue_angle() + 1) % 360
            &&& frame is Some
            &&& frame_shows(
                frame->Some_0,
                final(state).hue_angle(),
                left->Level_0,
                right->Level_0,
            )
        },
{
    let (l, r): (u8, u8) = match (left, right) {
        (ChannelSample::Level(l), ChannelSample::Level(r)) => (l, r),
        _ => {
            return None;
        },
    };
    let hue: u16 = state.advance();
    let front: Vec<(i32, Color)> = render_front_bar(l, r, hue);
    let loud: u8 = if l >= r {
        l
    } else {
        r
    };
    let cpu: Vec<(i32, Color)> = render_cpu_zone(hue, loud);
    Some(Frame { front, cpu })
}

} // verus!
