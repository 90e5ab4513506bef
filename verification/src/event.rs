//! Shot records and actor status: plain data that travels on the bus.

use crate::scalar::Scalar;
use crate::strmap::{Duplicate, StrMap};
use crate::units::{Distance, PartialMode, Velocity};
use vstd::prelude::*;
use vstd::string::*;

verus! {

/// The flight of the ball. Launch speed, elevation and azimuth are always there; the rest is
/// there where the device measured it.
#[derive(Debug, Clone, Copy, PartialEq, Eq, Structural)]
pub struct BallFlight {
    pub launch_speed: Velocity,
    pub launch_elevation: Scalar,
    pub launch_azimuth: Scalar,
    pub carry_distance: Option<Distance>,
    pub total_distance: Option<Distance>,
    pub max_height: Option<Distance>,
    pub flight_time: Option<Scalar>,
    pub roll_distance: Option<Distance>,
    pub backspin_rpm: Option<i32>,
    pub sidespin_rpm: Option<i32>,
}

/// What the club did at impact.
#[derive(Debug, Clone, Copy, PartialEq, Eq, Structural)]
pub struct ClubData {
    pub club_speed: Velocity,
    pub path: Option<Scalar>,
    pub attack_angle: Option<Scalar>,
    pub face_angle: Option<Scalar>,
    pub dynamic_loft: Option<Scalar>,
    pub smash_factor: Option<Scalar>,
    pub club_speed_post: Option<Velocity>,
    pub swing_plane_horizontal: Option<Scalar>,
    pub swing_plane_vertical: Option<Scalar>,
    pub club_offset: Option<Distance>,
    pub club_height: Option<Distance>,
}

/// Total spin in revolutions per minute, and the spin axis in degrees.
#[derive(Debug, Clone, Copy, PartialEq, Eq, Structural)]
pub struct SpinData {
    pub total_spin: i16,
    pub spin_axis: Scalar,
}

/// One shot, in the units in which the device gave it. `estimated` is set when the shot was put
/// together without a full flight record.
#[derive(Debug, Clone)]
pub struct ShotData {
    pub source: String,
    pub shot_number: i32,
    pub ball: BallFlight,
    pub club: Option<ClubData>,
    pub spin: Option<SpinData>,
    pub estimated: bool,
}

/// A shot with its source as plain text.
pub struct ShotView {
    pub source: Seq<char>,
    pub shot_number: i32,
    pub ball: BallFlight,
    pub club: Option<ClubData>,
    pub spin: Option<SpinData>,
    pub estimated: bool,
}

impl View for ShotData {
    type V = ShotView;

    open spec fn view(&self) -> ShotView {
        ShotView {
            source: self.source@,
            shot_number: self.shot_number,
            ball: self.ball,
            club: self.club,
            spin: self.spin,
            estimated: self.estimated,
        }
    }
}

impl Duplicate for ShotData {
    fn duplicate(&self) -> (r: ShotData) {
        ShotData {
            source: self.source.clone(),
            shot_number: self.shot_number,
            ball: self.ball,
            club: self.club,
            spin: self.spin,
            estimated: self.estimated,
        }
    }
}

/// The settings of a device session, as they are announced on the bus.
#[derive(Debug, Clone, Copy, PartialEq, Eq, Structural)]
pub struct MevoConfigEvent {
    pub ball_type: u8,
    pub tee_height: Distance,
    pub range: Distance,
    pub surface_height: Distance,
    pub track_pct: Scalar,
    pub use_partial: PartialMode,
}

/// Where an actor stands in its life.
#[derive(Debug, Clone, Copy, PartialEq, Eq, Structural)]
pub enum ActorStatus {
    Starting,
    Disconnected,
    Connected,
    Reconnecting,
}

impl ActorStatus {
    /// The status's name on the wire.
    pub open spec fn spec_name(self) -> Seq<char> {
        match self {
            ActorStatus::Starting => "starting"@,
            ActorStatus::Disconnected => "disconnected"@,
            ActorStatus::Connected => "connected"@,
            ActorStatus::Reconnecting => "reconnecting"@,
        }
    }

    /// The status's name on the wire.
    pub fn name(self) -> (s: &'static str)
        ensures
            s@ == self.spec_name(),
    {
        match self {
            ActorStatus::Starting => "starting",
            ActorStatus::Disconnected => "disconnected",
            ActorStatus::Connected => "connected",
            ActorStatus::Reconnecting => "reconnecting",
        }
    }

    /// The actor has lost its peer: it is disconnected or trying to reconnect.
    pub open spec fn spec_is_down(self) -> bool {
        self == ActorStatus::Disconnected || self == ActorStatus::Reconnecting
    }

    /// Whether the actor has lost its peer.
    pub fn is_down(self) -> (r: bool)
        ensures
            r == self.spec_is_down(),
    {
        match self {
            ActorStatus::Disconnected | ActorStatus::Reconnecting => true,
            _ => false,
        }
    }
}

/// An actor's status together with what it reports of itself, key by key.
#[derive(Debug, Clone)]
pub struct ActorState {
    pub status: ActorStatus,
    pub telemetry: StrMap<String>,
}

/// The telemetry as a map from each key to the text under it.
pub open spec fn telemetry_text(telemetry: StrMap<String>) -> Map<Seq<char>, Seq<char>> {
    telemetry@.map_values(|v: String| v@)
}

/// Telemetry without any entry.
pub open spec fn no_telemetry() -> Map<Seq<char>, Seq<char>> {
    Map::<Seq<char>, Seq<char>>::empty()
}

/// Starts a telemetry map.
pub fn new_telemetry() -> (t: StrMap<String>)
    ensures
        telemetry_text(t) == no_telemetry(),
        t@ == Map::<Seq<char>, String>::empty(),
{
    let t: StrMap<String> = StrMap::new();
    assert(telemetry_text(t) =~= no_telemetry());
    t
}

/// Puts `value` under `key` in a telemetry map, in place of what was there.
pub fn put_text(t: &mut StrMap<String>, key: &str, value: String)
    ensures
        telemetry_text(*final(t)) == telemetry_text(*old(t)).insert(key@, value@),
        final(t)@ == old(t)@.insert(key@, value),
{
    let k = String::from_str(key);
    t.insert(k, value);
    assert(telemetry_text(*t) =~= telemetry_text(*old(t)).insert(key@, value@));
}

impl ActorState {
    /// Puts a status and its telemetry together.
    pub fn new(status: ActorStatus, telemetry: StrMap<String>) -> (s: ActorState)
        ensures
            s.status == status,
            s.telemetry == telemetry,
    {
        ActorState { status, telemetry }
    }

    /// A copy of the state, with the telemetry in the same order.
    pub fn duplicate(&self) -> (s: ActorState)
        ensures
            s.status == self.status,
            s.telemetry.keys() == self.telemetry.keys(),
            s.telemetry.values() == self.telemetry.values(),
            s.telemetry@ == self.telemetry@,
    {
        ActorState { status: self.status, telemetry: self.telemetry.duplicate() }
    }
}

} // verus!
