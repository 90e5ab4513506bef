//! The records that go to the simulator and come back from it.

use crate::scalar::Scalar;
use vstd::prelude::*;
use vstd::string::*;

verus! {

/// Ball data for the simulator: speed in miles per hour, angles in degrees, spin in
/// revolutions per minute, carry in yards.
#[derive(Debug, Clone, Copy, PartialEq, Eq, Structural)]
pub struct BallData {
    pub speed: Scalar,
    pub spin_axis: Scalar,
    pub total_spin: Scalar,
    pub back_spin: Scalar,
    pub side_spin: Scalar,
    pub hla: Scalar,
    pub vla: Scalar,
    pub carry_distance: Option<Scalar>,
}

/// Club data for the simulator: speed in miles per hour, angles in degrees.
#[derive(Debug, Clone, Copy, PartialEq, Eq, Structural)]
pub struct ClubData {
    pub speed: Scalar,
    pub angle_of_attack: Scalar,
    pub face_to_target: Scalar,
    pub loft: Scalar,
    pub path: Scalar,
}

/// What a record for the simulator holds and how ready the launch monitor is.
#[derive(Debug, Clone, Copy, PartialEq, Eq, Structural)]
pub struct ShotDataOptions {
    pub contains_ball_data: bool,
    pub contains_club_data: bool,
    pub launch_monitor_is_ready: bool,
    pub launch_monitor_ball_detected: bool,
    pub is_heart_beat: bool,
}

/// One record for the simulator: a shot or a heartbeat.
#[derive(Debug, Clone)]
pub struct GsProMessage {
    pub device_id: String,
    pub units: String,
    pub shot_number: i32,
    pub api_version: String,
    pub ball_data: BallData,
    pub club_data: ClubData,
    pub shot_data_options: ShotDataOptions,
}

/// The player as the simulator reports it.
#[derive(Debug, Clone)]
pub struct PlayerInfo {
    pub handed: Option<String>,
    pub club: Option<String>,
}

/// One answer of the simulator.
#[derive(Debug, Clone)]
pub struct GsProResponse {
    pub code: i32,
    pub message: String,
    pub player: Option<PlayerInfo>,
}

/// Ball data with every number zero and no carry.
pub open spec fn zero_ball() -> BallData {
    BallData {
        speed: Scalar { bits: 0 },
        spin_axis: Scalar { bits: 0 },
        total_spin: Scalar { bits: 0 },
        back_spin: Scalar { bits: 0 },
        side_spin: Scalar { bits: 0 },
        hla: Scalar { bits: 0 },
        vla: Scalar { bits: 0 },
        carry_distance: None,
    }
}

/// Club data with every number zero.
pub open spec fn zero_club() -> ClubData {
    ClubData {
        speed: Scalar { bits: 0 },
        angle_of_attack: Scalar { bits: 0 },
        face_to_target: Scalar { bits: 0 },
        loft: Scalar { bits: 0 },
        path: Scalar { bits: 0 },
    }
}

impl GsProMessage {
    /// The record is a heartbeat with the given readiness: no data, shot number zero, and the
    /// fixed device id, units and version.
    pub open spec fn is_heartbeat(&self, ready: bool, ball_detected: bool) -> bool {
        &&& self.device_id@ == "Flighthook"@
        &&& self.units@ == "Yards"@
        &&& self.shot_number == 0
        &&& self.api_version@ == "1"@
        &&& self.ball_data == zero_ball()
        &&& self.club_data == zero_club()
        &&& self.shot_data_options == (ShotDataOptions {
            contains_ball_data: false,
            contains_club_data: false,
            launch_monitor_is_ready: ready,
            launch_monitor_ball_detected: ball_detected,
            is_heart_beat: true,
        })
    }

    /// Makes a heartbeat that tells the simulator how ready the launch monitor is.
    pub fn heartbeat_with_readiness(ready: bool, ball_detected: bool) -> (m: GsProMessage)
        ensures
            m.is_heartbeat(ready, ball_detected),
    {
        GsProMessage {
            device_id: String::from_str("Flighthook"),
            units: String::from_str("Yards"),
            shot_number: 0,
            api_version: String::from_str("1"),
            ball_data: BallData {
                speed: Scalar::zero(),
                spin_axis: Scalar::zero(),
                total_spin: Scalar::zero(),
                back_spin: Scalar::zero(),
                side_spin: Scalar::zero(),
                hla: Scalar::zero(),
                vla: Scalar::zero(),
                carry_distance: None,
            },
            club_data: ClubData {
                speed: Scalar::zero(),
                angle_of_attack: Scalar::zero(),
                face_to_target: Scalar::zero(),
                loft: Scalar::zero(),
                path: Scalar::zero(),
            },
            shot_data_options: ShotDataOptions {
                contains_ball_data: false,
                contains_club_data: false,
                launch_monitor_is_ready: ready,
                launch_monitor_ball_detected: ball_detected,
                is_heart_beat: true,
            },
        }
    }
    /// The record reports a shot: the fixed device id, units and version, the shot's number
    /// and ball data, the club data where there is any and zeros where there is none, and the
    /// flags of a shot, which proves that the monitor was ready and had seen a ball.
    pub open spec fn is_shot_report(
        &self,
        shot_number: i32,
        ball: BallData,
        club: Option<ClubData>,
    ) -> bool {
        &&& self.device_id@ == "Flighthook"@
        &&& self.units@ == "Yards"@
        &&& self.shot_number == shot_number
        &&& self.api_version@ == "1"@
        &&& self.ball_data == ball
        &&& self.club_data == (match club {
            Some(c) => c,
            None => zero_club(),
        })
        &&& self.shot_data_options == (ShotDataOptions {
            contains_ball_data: true,
            contains_club_data: club is Some,
            launch_monitor_is_ready: true,
            launch_monitor_ball_detected: true,
            is_heart_beat: false,
        })
    }

    /// Makes the record that reports a shot from the shot's number and its ball and club data
    /// in the simulator's units. The shot's number is the device's own.
    pub fn shot_report(shot_number: i32, ball: BallData, club: Option<ClubData>) -> (m: GsProMessage)
        ensures
            m.is_shot_report(shot_number, ball, club),
    {
        let contains_club_data = club.is_some();
        let club_data = match club {
            Some(c) => c,
            None => ClubData {
                speed: Scalar::zero(),
                angle_of_attack: Scalar::zero(),
                face_to_target: Scalar::zero(),
                loft: Scalar::zero(),
                path: Scalar::zero(),
            },
        };
        GsProMessage {
            device_id: String::from_str("Flighthook"),
            units: String::from_str("Yards"),
            shot_number,
            api_version: String::from_str("1"),
            ball_data: ball,
            club_data,
            shot_data_options: ShotDataOptions {
                contains_ball_data: true,
                contains_club_data,
                launch_monitor_is_ready: true,
                launch_monitor_ball_detected: true,
                is_heart_beat: false,
            },
        }
    }
}

} // verus!
