//! Putting one shot together from the fragments that a device sends for it.

use crate::event::{BallFlight, ClubData, ShotData, ShotView, SpinData};
use crate::scalar::Scalar;
use crate::text::contains_text;
use crate::units::{Distance, Velocity};
use vstd::prelude::*;
use vstd::string::*;

verus! {

/// A full flight record. Speeds are in metres per second, distances in metres, angles in
/// degrees.
#[derive(Debug, Clone, Copy, PartialEq, Eq, Structural)]
pub struct FlightResult {
    pub total: i32,
    pub launch_speed: Scalar,
    pub launch_elevation: Scalar,
    pub launch_azimuth: Scalar,
    pub carry_distance: Scalar,
    pub max_height: Scalar,
    pub flight_time: Scalar,
    pub backspin_rpm: i32,
    pub sidespin_rpm: i32,
    pub clubhead_speed: Scalar,
    pub club_strike_direction: Scalar,
    pub club_attack_angle: Scalar,
    pub club_face_angle: Scalar,
    pub club_effective_loft: Scalar,
    pub clubhead_speed_post: Scalar,
    pub club_swing_plane_rotation: Scalar,
    pub club_swing_plane_tilt: Scalar,
}

/// A partial flight record: carry but no total distance, and no side spin.
#[derive(Debug, Clone, Copy, PartialEq, Eq, Structural)]
pub struct FlightResultV1 {
    pub total: i32,
    pub ball_velocity: Scalar,
    pub elevation: Scalar,
    pub azimuth: Scalar,
    pub distance: Scalar,
    pub height: Scalar,
    pub flight_time: Scalar,
    pub backspin_rpm: i32,
    pub club_velocity: Scalar,
    pub club_strike_direction: Scalar,
}

/// The club record.
#[derive(Debug, Clone, Copy, PartialEq, Eq, Structural)]
pub struct ClubResult {
    pub pre_club_speed: Scalar,
    pub post_club_speed: Scalar,
    pub strike_direction: Scalar,
    pub attack_angle: Scalar,
    pub face_angle: Scalar,
    pub dynamic_loft: Scalar,
    pub smash_factor: Scalar,
    pub swing_plane_horizontal: Scalar,
    pub swing_plane_vertical: Scalar,
    pub club_offset: Scalar,
    pub club_height: Scalar,
}

/// The spin record.
#[derive(Debug, Clone, Copy, PartialEq, Eq, Structural)]
pub struct SpinResult {
    pub pm_spin_final: i16,
    pub spin_axis: Scalar,
}

/// What a device sent, as far as a shot is made from it.
#[derive(Debug, Clone)]
pub enum DeviceMessage {
    /// A line of text about the state of the shot.
    ShotText(String),
    FlightResult(FlightResult),
    FlightResultV1(FlightResultV1),
    ClubResult(ClubResult),
    SpinResult(SpinResult),
    /// Any other message.
    Other,
}

/// The text announces that a ball was struck.
pub open spec fn spec_is_trigger(text: Seq<char>) -> bool {
    contains_text(text, "BALL TRIGGER"@)
}

/// The text announces that the device has finished with the shot.
pub open spec fn spec_is_processed(text: Seq<char>) -> bool {
    contains_text(text, "PROCESSED"@)
}

/// Asks `ironsight::protocol::shot::ShotText::is_trigger` whether a shot text is the trigger
/// marker.
///
/// Trusted: the answer is `true` exactly when the text holds `BALL TRIGGER` somewhere.
#[verifier::external_body]
pub(crate) fn is_trigger(text: &str) -> (r: bool)
    ensures
        r == spec_is_trigger(text@),
{
    let shot_text = ironsight::protocol::shot::ShotText { text: text.to_string() };
    shot_text.is_trigger()
}

/// Asks `ironsight::protocol::shot::ShotText::is_processed` whether a shot text is the
/// processed marker.
///
/// Trusted: the answer is `true` exactly when the text holds `PROCESSED` somewhere.
#[verifier::external_body]
pub(crate) fn is_processed(text: &str) -> (r: bool)
    ensures
        r == spec_is_processed(text@),
{
    let shot_text = ironsight::protocol::shot::ShotText { text: text.to_string() };
    shot_text.is_processed()
}

impl DeviceMessage {
    /// The message is the trigger marker.
    pub open spec fn spec_is_trigger(self) -> bool {
        self matches DeviceMessage::ShotText(t) && spec_is_trigger(t@)
    }

    /// The message is the processed marker and not at once the trigger marker, which goes
    /// first.
    pub open spec fn spec_is_processed(self) -> bool {
        self matches DeviceMessage::ShotText(t) && !spec_is_trigger(t@) && spec_is_processed(t@)
    }

    /// The message carries a part of a shot's data.
    pub open spec fn spec_is_fragment(self) -> bool {
        self is FlightResult || self is FlightResultV1 || self is ClubResult || self is SpinResult
    }

    /// Whether the message is the trigger marker.
    pub fn is_trigger(&self) -> (r: bool)
        ensures
            r == self.spec_is_trigger(),
    {
        match self {
            DeviceMessage::ShotText(t) => is_trigger(t.as_str()),
            _ => false,
        }
    }

    /// Whether the message is the processed marker, and not the trigger marker.
    pub fn is_processed(&self) -> (r: bool)
        ensures
            r == self.spec_is_processed(),
    {
        match self {
            DeviceMessage::ShotText(t) => !is_trigger(t.as_str()) && is_processed(t.as_str()),
            _ => false,
        }
    }
}

/// The fragments of the shot that is under way, and whether one is under way.
#[derive(Debug, Clone, Copy, PartialEq, Eq, Structural)]
pub struct ShotAccumulator {
    pub flight: Option<FlightResult>,
    pub flight_v1: Option<FlightResultV1>,
    pub club: Option<ClubResult>,
    pub spin: Option<SpinResult>,
    pub active: bool,
}

/// An accumulator without fragments, active or not.
pub open spec fn cleared(active: bool) -> ShotAccumulator {
    ShotAccumulator { flight: None, flight_v1: None, club: None, spin: None, active }
}

/// The ball data of a full flight record, each number in the unit it came in.
pub open spec fn ball_from_flight(d4: FlightResult) -> BallFlight {
    BallFlight {
        launch_speed: Velocity::MetersPerSecond(d4.launch_speed),
        launch_elevation: d4.launch_elevation,
        launch_azimuth: d4.launch_azimuth,
        carry_distance: Some(Distance::Meters(d4.carry_distance)),
        total_distance: None,
        max_height: Some(Distance::Meters(d4.max_height)),
        flight_time: Some(d4.flight_time),
        roll_distance: None,
        backspin_rpm: Some(d4.backspin_rpm),
        sidespin_rpm: Some(d4.sidespin_rpm),
    }
}

/// The club data that a full flight record carries along.
pub open spec fn club_from_flight(d4: FlightResult) -> ClubData {
    ClubData {
        club_speed: Velocity::MetersPerSecond(d4.clubhead_speed),
        path: Some(d4.club_strike_direction),
        attack_angle: Some(d4.club_attack_angle),
        face_angle: Some(d4.club_face_angle),
        dynamic_loft: Some(d4.club_effective_loft),
        smash_factor: None,
        club_speed_post: Some(Velocity::MetersPerSecond(d4.clubhead_speed_post)),
        swing_plane_horizontal: Some(d4.club_swing_plane_rotation),
        swing_plane_vertical: Some(d4.club_swing_plane_tilt),
        club_offset: None,
        club_height: None,
    }
}

/// The ball data of a partial flight record. Side spin is absent, not zero.
pub open spec fn ball_from_flight_v1(e8: FlightResultV1) -> BallFlight {
    BallFlight {
        launch_speed: Velocity::MetersPerSecond(e8.ball_velocity),
        launch_elevation: e8.elevation,
        launch_azimuth: e8.azimuth,
        carry_distance: Some(Distance::Meters(e8.distance)),
        total_distance: None,
        max_height: Some(Distance::Meters(e8.height)),
        flight_time: Some(e8.flight_time),
        roll_distance: None,
        backspin_rpm: Some(e8.backspin_rpm),
        sidespin_rpm: None,
    }
}

/// The club data that a partial flight record carries along: speed and path only.
pub open spec fn club_from_flight_v1(e8: FlightResultV1) -> ClubData {
    ClubData {
        club_speed: Velocity::MetersPerSecond(e8.club_velocity),
        path: Some(e8.club_strike_direction),
        attack_angle: None,
        face_angle: None,
        dynamic_loft: None,
        smash_factor: None,
        club_speed_post: None,
        swing_plane_horizontal: None,
        swing_plane_vertical: None,
        club_offset: None,
        club_height: None,
    }
}

/// The club data of a club record.
pub open spec fn club_from_ed(ed: ClubResult) -> ClubData {
    ClubData {
        club_speed: Velocity::MetersPerSecond(ed.pre_club_speed),
        path: Some(ed.strike_direction),
        attack_angle: Some(ed.attack_angle),
        face_angle: Some(ed.face_angle),
        dynamic_loft: Some(ed.dynamic_loft),
        smash_factor: Some(ed.smash_factor),
        club_speed_post: Some(Velocity::MetersPerSecond(ed.post_club_speed)),
        swing_plane_horizontal: Some(ed.swing_plane_horizontal),
        swing_plane_vertical: Some(ed.swing_plane_vertical),
        club_offset: Some(Distance::Meters(ed.club_offset)),
        club_height: Some(Distance::Meters(ed.club_height)),
    }
}

fn make_ball_from_flight(d4: &FlightResult) -> (b: BallFlight)
    ensures
        b == ball_from_flight(*d4),
{
    BallFlight {
        launch_speed: Velocity::MetersPerSecond(d4.launch_speed),
        launch_elevation: d4.launch_elevation,
        launch_azimuth: d4.launch_azimuth,
        carry_distance: Some(Distance::Meters(d4.carry_distance)),
        total_distance: None,
        max_height: Some(Distance::Meters(d4.max_height)),
        flight_time: Some(d4.flight_time),
        roll_distance: None,
        backspin_rpm: Some(d4.backspin_rpm),
        sidespin_rpm: Some(d4.sidespin_rpm),
    }
}

fn make_club_from_flight(d4: &FlightResult) -> (c: ClubData)
    ensures
        c == club_from_flight(*d4),
{
    ClubData {
        club_speed: Velocity::MetersPerSecond(d4.clubhead_speed),
        path: Some(d4.club_strike_direction),
        attack_angle: Some(d4.club_attack_angle),
        face_angle: Some(d4.club_face_angle),
        dynamic_loft: Some(d4.club_effective_loft),
        smash_factor: None,
        club_speed_post: Some(Velocity::MetersPerSecond(d4.clubhead_speed_post)),
        swing_plane_horizontal: Some(d4.club_swing_plane_rotation),
        swing_plane_vertical: Some(d4.club_swing_plane_tilt),
        club_offset: None,
        club_height: None,
    }
}

fn make_ball_from_flight_v1(e8: &FlightResultV1) -> (b: BallFlight)
    ensures
        b == ball_from_flight_v1(*e8),
{
    BallFlight {
        launch_speed: Velocity::MetersPerSecond(e8.ball_velocity),
        launch_elevation: e8.elevation,
        launch_azimuth: e8.azimuth,
        carry_distance: Some(Distance::Meters(e8.distance)),
        total_distance: None,
        max_height: Some(Distance::Meters(e8.height)),
        flight_time: Some(e8.flight_time),
        roll_distance: None,
        backspin_rpm: Some(e8.backspin_rpm),
        sidespin_rpm: None,
    }
}

fn make_club_from_flight_v1(e8: &FlightResultV1) -> (c: ClubData)
    ensures
        c == club_from_flight_v1(*e8),
{
    ClubData {
        club_speed: Velocity::MetersPerSecond(e8.club_velocity),
        path: Some(e8.club_strike_direction),
        attack_angle: None,
        face_angle: None,
        dynamic_loft: None,
        smash_factor: None,
        club_speed_post: None,
        swing_plane_horizontal: None,
        swing_plane_vertical: None,
        club_offset: None,
        club_height: None,
    }
}

fn make_club_from_ed(ed: &ClubResult) -> (c: ClubData)
    ensures
        c == club_from_ed(*ed),
{
    ClubData {
        club_speed: Velocity::MetersPerSecond(ed.pre_club_speed),
        path: Some(ed.strike_direction),
        attack_angle: Some(ed.attack_angle),
        face_angle: Some(ed.face_angle),
        dynamic_loft: Some(ed.dynamic_loft),
        smash_factor: Some(ed.smash_factor),
        club_speed_post: Some(Velocity::MetersPerSecond(ed.post_club_speed)),
        swing_plane_horizontal: Some(ed.swing_plane_horizontal),
        swing_plane_vertical: Some(ed.swing_plane_vertical),
        club_offset: Some(Distance::Meters(ed.club_offset)),
        club_height: Some(Distance::Meters(ed.club_height)),
    }
}

impl ShotAccumulator {
    /// The accumulator after `msg`: the trigger marker clears it and makes it active; a
    /// fragment goes into its slot and makes it active; anything else leaves it as it is.
    pub open spec fn spec_after(self, msg: DeviceMessage) -> ShotAccumulator {
        if msg.spec_is_trigger() {
            cleared(true)
        } else {
            match msg {
                DeviceMessage::FlightResult(r) => ShotAccumulator {
                    flight: Some(r),
                    active: true,
                    ..self
                },
                DeviceMessage::FlightResultV1(r) => ShotAccumulator {
                    flight_v1: Some(r),
                    active: true,
                    ..self
                },
                DeviceMessage::ClubResult(r) => ShotAccumulator {
                    club: Some(r),
                    active: true,
                    ..self
                },
                DeviceMessage::SpinResult(r) => ShotAccumulator {
                    spin: Some(r),
                    active: true,
                    ..self
                },
                _ => self,
            }
        }
    }

    /// `msg` is a fragment that arrives while no shot is under way, and so starts one without
    /// a trigger marker.
    pub open spec fn spec_auto_starts(self, msg: DeviceMessage) -> bool {
        !msg.spec_is_trigger() && msg.spec_is_fragment() && !self.active
    }

    /// The shot that finalizing gives, if it gives one: none while no shot is under way or
    /// while there is no flight record. The ball comes from the full flight record where there
    /// is one, else from the partial one; the club comes from the club record where there is
    /// one, else from what the flight record carries along; the shot is estimated exactly
    /// when there is no full flight record.
    pub open spec fn spec_shot(self, source: Seq<char>) -> Option<ShotView> {
        if !self.active {
            None
        } else {
            match (self.flight, self.flight_v1) {
                (Some(d4), _) => Some(
                    ShotView {
                        source,
                        shot_number: d4.total,
                        ball: ball_from_flight(d4),
                        club: Some(
                            match self.club {
                                Some(ed) => club_from_ed(ed),
                                None => club_from_flight(d4),
                            },
                        ),
                        spin: self.spec_spin(),
                        estimated: false,
                    },
                ),
                (None, Some(e8)) => Some(
                    ShotView {
                        source,
                        shot_number: e8.total,
                        ball: ball_from_flight_v1(e8),
                        club: Some(
                            match self.club {
                                Some(ed) => club_from_ed(ed),
                                None => club_from_flight_v1(e8),
                            },
                        ),
                        spin: self.spec_spin(),
                        estimated: true,
                    },
                ),
                (None, None) => None,
            }
        }
    }

    /// The spin data of the spin record, if there is one.
    pub open spec fn spec_spin(self) -> Option<SpinData> {
        match self.spin {
            Some(s) => Some(SpinData { total_spin: s.pm_spin_final, spin_axis: s.spin_axis }),
            None => None,
        }
    }

    /// The accumulator after finalizing. While no shot is under way nothing changes. Else the
    /// shot is over; where a shot came out, the flight record that was used, the club record
    /// and the spin record are gone, and a partial flight record that stood beside a full one
    /// stays where it is.
    pub open spec fn spec_after_finalize(self) -> ShotAccumulator {
        if !self.active {
            self
        } else if self.flight is Some {
            ShotAccumulator { flight: None, club: None, spin: None, active: false, ..self }
        } else if self.flight_v1 is Some {
            ShotAccumulator { flight_v1: None, club: None, spin: None, active: false, ..self }
        } else {
            ShotAccumulator { active: false, ..self }
        }
    }

    /// An accumulator without fragments, with no shot under way.
    pub fn new() -> (a: ShotAccumulator)
        ensures
            a == cleared(false),
    {
        ShotAccumulator { flight: None, flight_v1: None, club: None, spin: None, active: false }
    }

    /// Takes in one message of the device. Returns whether the message was a fragment that
    /// started a shot without a trigger marker before it.
    pub fn handle(&mut self, msg: &DeviceMessage) -> (auto_started: bool)
        ensures
            *final(self) == old(self).spec_after(*msg),
            auto_started == old(self).spec_auto_starts(*msg),
    {
        if msg.is_trigger() {
            self.reset();
            self.active = true;
            return false;
        }
        match msg {
            DeviceMessage::FlightResult(r) => {
                let auto = !self.active;
                self.active = true;
                self.flight = Some(*r);
                auto
            },
            DeviceMessage::FlightResultV1(r) => {
                let auto = !self.active;
                self.active = true;
                self.flight_v1 = Some(*r);
                auto
            },
            DeviceMessage::ClubResult(r) => {
                let auto = !self.active;
                self.active = true;
                self.club = Some(*r);
                auto
            },
            DeviceMessage::SpinResult(r) => {
                let auto = !self.active;
                self.active = true;
                self.spin = Some(*r);
                auto
            },
            _ => false,
        }
    }

    /// Ends the shot that is under way and puts it together from its fragments, with `source`
    /// as its source.
    pub fn finalize(&mut self, source: &str) -> (shot: Option<ShotData>)
        ensures
            match shot {
                Some(s) => old(self).spec_shot(source@) == Some(s@),
                None => old(self).spec_shot(source@) is None,
            },
            *final(self) == old(self).spec_after_finalize(),
            shot matches Some(s) ==> s.estimated == (old(self).flight is None),
    {
        if !self.active {
            return None;
        }
        let (shot_number, had_d4, ball, embedded_club) = match self.flight {
            Some(d4) => {
                self.flight = None;
                (d4.total, true, make_ball_from_flight(&d4), make_club_from_flight(&d4))
            },
            None => match self.flight_v1 {
                Some(e8) => {
                    self.flight_v1 = None;
                    (e8.total, false, make_ball_from_flight_v1(&e8), make_club_from_flight_v1(&e8))
                },
                None => {
                    self.active = false;
                    return None;
                },
            },
        };
        let club = match self.club {
            Some(ed) => make_club_from_ed(&ed),
            None => embedded_club,
        };
        self.club = None;
        let spin = match self.spin {
            Some(s) => Some(SpinData { total_spin: s.pm_spin_final, spin_axis: s.spin_axis }),
            None => None,
        };
        self.spin = None;
        self.active = false;
        Some(
            ShotData {
                source: String::from_str(source),
                shot_number,
                ball,
                club: Some(club),
                spin,
                estimated: !had_d4,
            },
        )
    }

    /// Whether a full flight record is held.
    pub fn has_flight(&self) -> (r: bool)
        ensures
            r == (self.flight is Some),
    {
        self.flight.is_some()
    }

    /// Whether a partial flight record is held.
    pub fn has_flight_v1(&self) -> (r: bool)
        ensures
            r == (self.flight_v1 is Some),
    {
        self.flight_v1.is_some()
    }

    /// Whether a club record is held.
    pub fn has_club(&self) -> (r: bool)
        ensures
            r == (self.club is Some),
    {
        self.club.is_some()
    }

    /// Whether a spin record is held.
    pub fn has_spin(&self) -> (r: bool)
        ensures
            r == (self.spin is Some),
    {
        self.spin.is_some()
    }

    fn reset(&mut self)
        ensures
            *final(self) == cleared(false),
    {
        self.flight = None;
        self.flight_v1 = None;
        self.club = None;
        self.spin = None;
        self.active = false;
    }
}

/// A fragment that arrives while no shot is under way starts one, and a later trigger marker
/// clears what was gathered.
pub proof fn lemma_fragment_starts_shot(acc: ShotAccumulator, fragment: DeviceMessage)
    requires
        fragment.spec_is_fragment(),
    ensures
        acc.spec_after(fragment).active,
        acc.spec_auto_starts(fragment) == !acc.active,
        forall|trigger: DeviceMessage|
            trigger.spec_is_trigger() ==> acc.spec_after(fragment).spec_after(trigger) == cleared(
                true,
            ),
{
}

/// Finalizing always ends the shot, and gives a shot exactly when one is under way and a
/// flight record is held; the shot is estimated exactly when that record is the partial one. A
/// second finalizing right after gives nothing.
pub proof fn lemma_finalize(acc: ShotAccumulator, source: Seq<char>)
    ensures
        !acc.spec_after_finalize().active || !acc.active,
        acc.spec_shot(source) is Some <==> acc.active && (acc.flight is Some || acc.flight_v1
            is Some),
        acc.spec_shot(source) matches Some(s) ==> s.estimated == (acc.flight is None)
            && s.source == source,
        acc.active ==> acc.spec_after_finalize().spec_shot(source) is None,
{
}

} // verus!
