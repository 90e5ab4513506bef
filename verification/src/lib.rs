//! Launch-monitor bridge: message schema, routing rules and actor supervision.
//!
//! The library holds the decisions of the system: which shots a simulator gets, how a shot is
//! put together from the fragments of a device, what a running actor has to do when the
//! configuration changes, and what each actor publishes. Sockets, threads, files and clocks
//! belong to the program around it, which reports what happened and carries out what the
//! library decides.

pub mod actors;
pub mod address;
pub mod api;
pub mod bus;
pub mod clock;
pub mod config;
pub mod event;
pub mod game_state;
pub mod message;
pub mod scalar;
pub mod strmap;
pub mod text;
pub mod units;

pub use actors::gspro::api::{GsProMessage, GsProResponse, ShotDataOptions};
pub use actors::gspro::{
    handle_response, readiness, shot_matches_routing, should_forward_partial, BridgeState,
    GsProRouting, Readiness,
};
pub use actors::mevo::{
    DeviceMessage, DeviceSession, HandshakeInfo, SessionConfig, ShotAccumulator,
};
pub use actors::system::{apply_game_command, config_outcome, handle_config_command};
pub use actors::web::routes::{default_limit, ConvertQuery, ShotsQuery};
pub use actors::web::{apply_bus_event, new_actor, WebProjection};
pub use actors::{
    actor_names, apply_config_reload, resolve_actors, ActorSpec, ConfigReloadOutcome, GsProActor,
    MevoActor, MockLaunchActor, RandomClubActor, ReconfigureOutcome, Registry, ResolvedActor,
    WebActor,
};
pub use address::{AddressBook, SocketAddress};
pub use api::{ActorStatusResponse, ModeRequest, PostSettingsResponse, StatusResponse};
pub use bus::{BusReceiver, BusSender, PollError};
pub use clock::Timestamp;
pub use config::{
    generate_id, global_id, load, FlighthookConfig, GsProSection, MevoSection, MockMonitorSection,
    RandomClubSection, WebserverSection,
};
pub use event::{
    ActorState, ActorStatus, BallFlight, ClubData, MevoConfigEvent, ShotData, SpinData,
};
pub use game_state::{Club, ClubInfo, GameState, GameStateSnapshot, GameStateWriter, PlayerInfo};
pub use message::{
    AlertLevel, AlertMessage, ConfigAction, ConfigChanged, ConfigCommand, ConfigOutcome,
    FlighthookEvent, FlighthookMessage, GameStateCommand, GameStateCommandEvent,
    LaunchMonitorEvent, LaunchMonitorRecv, RawPayload, UserDataMessage,
};
pub use scalar::Scalar;
pub use strmap::{Duplicate, StrMap};
pub use units::{Distance, PartialMode, ShotDetectionMode, UnitSystem, Velocity};
