//! The simulator bridge: which shots go to the simulator, and when a heartbeat is due.

pub mod api;
pub mod bridge;
pub mod proto;

pub use bridge::{
    readiness, shot_matches_routing, should_forward_partial, BridgeState, Drained, GsProRouting,
    Readiness,
};
pub use proto::{handle_response, on_connected, on_stream_end, StreamEnd};
