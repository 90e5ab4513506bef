//! The actors and what supervises them.

pub mod backoff;
pub mod gspro;
pub mod mevo;
pub mod mock;
pub mod reload;
pub mod resolve;
pub mod supervisor;
pub mod system;
pub mod web;

pub use resolve::{
    ActorSpec, GsProActor, MevoActor, MockLaunchActor, RandomClubActor, ReconfigureOutcome,
    ResolvedActor, WebActor,
};
pub use supervisor::{actor_names, resolve_actors};
pub use reload::{apply_config_reload, Change, ConfigReloadOutcome, Registry};
