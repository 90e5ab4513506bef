//! The device actor: a reconnecting session with one launch monitor.

pub mod accumulator;
pub mod client;
pub mod session;
pub mod settings;

pub use accumulator::{
    ClubResult, DeviceMessage, FlightResult, FlightResultV1, ShotAccumulator, SpinResult,
};
pub use client::{ConnErrorKind, ConnFailure, DeviceStatus, HandshakeInfo};
pub use session::{BusPoll, DeviceSession, Next, Outgoing, Pending, Step, Taken};
pub use settings::SessionConfig;
