//! The consumed device gateway interface: the handshake acceptance rule and
//! the translation of a zone buffer into the gateway's wire entries.
//!
//! The gateway itself — protocol handshake, device enumeration, buffered
//! transmission — is an external collaborator; the engine only decides
//! whether a handshake outcome is acceptable and shapes each buffered LED
//! write for it.

use vstd::prelude::*;
use crate::color::Color;

verus! {

/// A lighting device as the gateway enumerates it at startup; used only for
/// diagnostics, never on the per-tick path.
#[derive(Clone, Debug)]
pub struct Device {
    /// The gateway's index for the device.
    pub id: usize,
    /// The device's display name.
    pub name: String,
    /// How many LEDs the device carries.
    pub leds_count: usize,
}

/// The handshake acceptance rule: the gateway is compatible exactly when it
/// reported a non-zero server protocol version. On zero the engine must not
/// start ticking.
pub fn protocol_compatible(server_protocol_version: i32) -> (ok: bool)
    ensures
        ok == (server_protocol_version != 0),
{
    server_protocol_version != 0
}

/// One buffered LED write as the gateway's wire format carries it: the LED
/// id and the three color channels, each widened to a machine integer.
pub open spec fn wire_of(e: (i32, Color)) -> (i32, i32, i32, i32) {
    (e.0, e.1.r as i32, e.1.g as i32, e.1.b as i32)
}

/// Translates a zone buffer into wire entries for the gateway, in order,
/// entry for entry.
#[verifier::loop_isolation(false)]
pub fn wire_entries(leds: &Vec<(i32, Color)>) -> (out: Vec<(i32, i32, i32, i32)>)
    ensures
        out@.len() == leds@.len(),
        forall|i: int| 0 <= i < leds@.len() ==> out@[i] == wire_of(leds@[i]),
{
    let mut out: Vec<(i32, i32, i32, i32)> = Vec::new();
    let mut j: usize = 0;
    while j < leds.len()
        invariant
            j <= leds@.len(),
            out@.len() == j,
            forall|i: int| 0 <= i < j ==> out@[i] == wire_of(leds@[i]),
        decreases leds@.len() - j,
    {
        let e: (i32, Color) = leds[j];
        out.push((e.0, e.1.r as i32, e.1.g as i32, e.1.b as i32));
        j = j + 1;
    }
    out
}

} // verus!
