//! What the device client reports: the outcome of the handshake, the status from a keepalive,
//! and the kinds of failure of a connection.

use crate::event::{new_telemetry, no_telemetry, put_text, telemetry_text};
use crate::strmap::StrMap;
use crate::text::{bool_text, bool_to_text, decimal, u64_to_decimal};
use vstd::prelude::*;
use vstd::string::*;

verus! {

/// What the handshake told of the device. Tilt and roll are in degrees, already rendered with
/// one decimal place.
#[derive(Debug, Clone)]
pub struct HandshakeInfo {
    pub device_info: String,
    pub battery_pct: u8,
    pub external_power: bool,
    pub tilt: String,
    pub roll: String,
}

/// What a keepalive told of the device. Temperature, tilt and roll are already rendered with
/// one decimal place.
#[derive(Debug, Clone)]
pub struct DeviceStatus {
    pub battery_pct: u8,
    pub external_power: bool,
    pub temp_c: String,
    pub tilt: String,
    pub roll: String,
}

/// The kinds of failure of a device connection.
#[derive(Debug, Clone, Copy, PartialEq, Eq, Structural)]
pub enum ConnErrorKind {
    /// The stream failed.
    Io,
    /// A frame could not be decoded.
    Wire,
    /// Nothing arrived in time.
    Timeout,
    /// The device closed the connection.
    Disconnected,
    /// A message came that the protocol does not allow at that point.
    Protocol,
}

/// A failure of the device connection: its kind, its message for the user, and its full
/// description for the log.
#[derive(Debug, Clone)]
pub struct ConnFailure {
    pub kind: ConnErrorKind,
    pub text: String,
    pub detail: String,
}

/// A failure that passes: a timeout or a protocol violation. The session goes on after it.
pub open spec fn spec_is_transient(kind: ConnErrorKind) -> bool {
    kind == ConnErrorKind::Timeout || kind == ConnErrorKind::Protocol
}

/// Whether a failure of this kind passes, so that the session goes on.
pub fn is_transient(kind: ConnErrorKind) -> (r: bool)
    ensures
        r == spec_is_transient(kind),
{
    match kind {
        ConnErrorKind::Timeout | ConnErrorKind::Protocol => true,
        _ => false,
    }
}

/// The telemetry of a device: battery, tilt, roll, temperature, external power and whether it
/// is armed.
pub open spec fn spec_telemetry_state(
    battery_pct: u8,
    tilt: Seq<char>,
    roll: Seq<char>,
    temp_c: Seq<char>,
    external_power: bool,
    armed: bool,
) -> Map<Seq<char>, Seq<char>> {
    no_telemetry().insert("battery_pct"@, decimal(battery_pct as nat)).insert("tilt"@, tilt).insert(
        "roll"@,
        roll,
    ).insert("temp_c"@, temp_c).insert("external_power"@, bool_text(external_power)).insert(
        "armed"@,
        bool_text(armed),
    )
}

/// Builds the telemetry of a device.
pub fn telemetry_state(
    battery_pct: u8,
    tilt: &str,
    roll: &str,
    temp_c: &str,
    external_power: bool,
    armed: bool,
) -> (t: StrMap<String>)
    ensures
        telemetry_text(t) == spec_telemetry_state(
            battery_pct,
            tilt@,
            roll@,
            temp_c@,
            external_power,
            armed,
        ),
{
    let mut t = new_telemetry();
    put_text(&mut t, "battery_pct", u64_to_decimal(battery_pct as u64));
    put_text(&mut t, "tilt", String::from_str(tilt));
    put_text(&mut t, "roll", String::from_str(roll));
    put_text(&mut t, "temp_c", String::from_str(temp_c));
    put_text(&mut t, "external_power", bool_to_text(external_power));
    put_text(&mut t, "armed", bool_to_text(armed));
    t
}

} // verus!
