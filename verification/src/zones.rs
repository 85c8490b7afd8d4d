//! Zone renderers: fixed-length LED color buffers for the two physical
//! zones.
//!
//! The front bar is 30 LEDs: two 15-LED meter halves that grow toward the
//! middle from opposite physical ends of the strip. The covered middle
//! segment shows the rotating hue; the uncovered ends stay white. The cpu
//! zone is 12 LEDs, all showing one level-driven color.

use vstd::prelude::*;
use crate::color::{white, hsv_color, hsv_to_rgb, Color};
use crate::levels::{width_of, width_of_level};

verus! {

/// First LED id of the front bar zone.
pub const FRONT_BAR_BASE: i32 = 200;

/// Number of LEDs in the front bar zone.
pub const FRONT_BAR_LEN: usize = 30;

/// First LED id of the cpu zone.
pub const CPU_ZONE_BASE: i32 = 766;

/// Number of LEDs in the cpu zone.
pub const CPU_ZONE_LEN: usize = 12;

/// The entry at position `i` of a front bar buffer built for meter widths
/// `lw` and `rw` and active color `c`. Positions before `15 - lw` are the
/// white lead-in at ascending LED ids; positions up to `15 + rw` are the
/// active middle segment, still at ascending ids; the rest is the white
/// tail, laid out in descending id order so the strip's outer end fills
/// first.
pub open spec fn front_entry(lw: int, rw: int, c: Color, i: int) -> (i32, Color) {
    if i < 15 - lw {
        (((200 + i) as i32), white())
    } else if i < 15 + rw {
        (((200 + i) as i32), c)
    } else {
        (((244 + rw - i) as i32), white())
    }
}

/// The whole front bar buffer for meter widths `lw` and `rw` and active
/// color `c`: always exactly 30 entries.
pub open spec fn front_bar_seq(lw: int, rw: int, c: Color) -> Seq<(i32, Color)> {
    Seq::new(30, |i: int| front_entry(lw, rw, c, i))
}

/// The cpu zone buffer: 12 consecutive LED ids, all with color `c`.
pub open spec fn cpu_zone_seq(c: Color) -> Seq<(i32, Color)> {
    Seq::new(12, |i: int| (((766 + i) as i32), c))
}

/// The three front bar segments always fill the zone exactly: the white
/// lead-in, the active middle and the white tail sum to 30 entries whatever
/// the meter widths. An algebraic identity, not a runtime coincidence.
pub proof fn lemma_segments_fill_zone(lw: int, rw: int)
    requires
        0 <= lw <= 15,
        0 <= rw <= 15,
    ensures
        (15 - lw) + (lw + rw) + (15 - rw) == 30,
        forall|c: Color| (#[trigger] front_bar_seq(lw, rw, c)).len() == 30,
{
}

/// Renders the front bar for the two channel levels at the given hue: the
/// left meter covers `floor(left / 255 * 15)` LEDs from the left end, the
/// right meter the mirror image from the right end, both in the fully
/// saturated, full-value hue color; the uncovered remainder is white.
#[verifier::loop_isolation(false)]
pub fn render_front_bar(left: u8, right: u8, hue: u16) -> (buf: Vec<(i32, Color)>)
    requires
        hue < 360,
    ensures
        buf@ == front_bar_seq(
            width_of(left as int),
            width_of(right as int),
            hsv_color(hue as int, 255, 255),
        ),
        buf@.len() == 30,
{
    let lw: usize = width_of_level(left);
    let rw: usize = width_of_level(right);
    let active: Color = hsv_to_rgb(hue, 255, 255);
    let ghost target: Seq<(i32, Color)> = front_bar_seq(lw as int, rw as int, active);
    let mut buf: Vec<(i32, Color)> = Vec::new();
    let mut j: usize = 0;
    while j < 15 - lw
        invariant
            j <= 15 - lw,
            buf@.len() == j,
            forall|i: int| 0 <= i < j ==> buf@[i] == target[i],
        decreases 15 - lw - j,
    {
        buf.push((((200 + j) as i32), Color::new(255, 255, 255)));
        j = j + 1;
    }
    while j < 15 + rw
        invariant
            15 - lw <= j <= 15 + rw,
            buf@.len() == j,
            forall|i: int| 0 <= i < j ==> buf@[i] == target[i],
        decreases 15 + rw - j,
    {
        buf.push((((200 + j) as i32), active));
        j = j + 1;
    }
    while j < 30
        invariant
            15 + rw <= j <= 30,
            buf@.len() == j,
            forall|i: int| 0 <= i < j ==> buf@[i] == target[i],
        decreases 30 - j,
    {
        buf.push((((244 + rw - j) as i32), Color::new(255, 255, 255)));
        j = j + 1;
    }
    assert(buf@ =~= target);
    buf
}

/// Renders the cpu zone: every one of its 12 LEDs shows the hue color whose
/// value channel is the given level, so the whole zone dims with the audio.
#[verifier::loop_isolation(false)]
pub fn render_cpu_zone(hue: u16, level: u8) -> (buf: Vec<(i32, Color)>)
    requires
        hue < 360,
    ensures
        buf@ == cpu_zone_seq(hsv_color(hue as int, 255, level as int)),
        buf@.len() == 12,
{
    let c: Color = hsv_to_rgb(hue, 255, level);
    let ghost target: Seq<(i32, Color)> = cpu_zone_seq(c);
    let mut buf: Vec<(i32, Color)> = Vec::new();
    let mut j: usize = 0;
    while j < 12
        invariant
            j <= 12,
            buf@.len() == j,
            forall|i: int| 0 <= i < j ==> buf@[i] == target[i],
        decreases 12 - j,
    {
        buf.push((((766 + j) as i32), c));
        j = j + 1;
    }
    assert(buf@ =~= target);
    buf
}

} // verus!
