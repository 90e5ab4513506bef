//! The bodies of the REST interface's answers and requests.

use crate::event::ActorStatus;
use crate::strmap::StrMap;
use crate::units::ShotDetectionMode;
use vstd::prelude::*;

verus! {

/// What the status endpoint answers: every known actor under its id, and the current mode.
#[derive(Debug, Clone)]
pub struct StatusResponse {
    pub actors: StrMap<ActorStatusResponse>,
    pub mode: Option<ShotDetectionMode>,
}

/// One actor as the status endpoint shows it; also the record that the web layer caches.
#[derive(Debug, Clone)]
pub struct ActorStatusResponse {
    pub name: String,
    pub status: ActorStatus,
    pub telemetry: StrMap<String>,
}

impl ActorStatusResponse {
    /// A copy of the record, with the telemetry in the same order.
    pub fn duplicate(&self) -> (r: ActorStatusResponse)
        ensures
            r.name == self.name,
            r.status == self.status,
            r.telemetry.keys() == self.telemetry.keys(),
            r.telemetry.values() == self.telemetry.values(),
            r.telemetry@ == self.telemetry@,
    {
        ActorStatusResponse {
            name: self.name.clone(),
            status: self.status,
            telemetry: self.telemetry.duplicate(),
        }
    }
}

/// The body of a request to change the detection mode.
#[derive(Debug, Clone, Copy, PartialEq, Eq, Structural)]
pub struct ModeRequest {
    pub mode: ShotDetectionMode,
}

/// What the settings endpoint answers after a replacement: the actors that were restarted and
/// those that were stopped.
#[derive(Debug, Clone)]
pub struct PostSettingsResponse {
    pub restarted: Vec<String>,
    pub stopped: Vec<String>,
}

} // verus!
