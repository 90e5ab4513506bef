//! The messages of the bus: an envelope with source and time, and the event it carries.

use crate::clock::{utc_now, Timestamp};
use crate::config::{
    FlighthookConfig, GsProSection, MevoSection, MockMonitorSection, RandomClubSection,
    WebserverSection,
};
use crate::event::{
    telemetry_text, ActorState, ActorStatus, MevoConfigEvent, ShotData, ShotView,
};
use crate::strmap::StrMap;
use crate::game_state::{Club, ClubInfo, GameStateSnapshot, PlayerInfo};
use crate::text::{hex_encode, hex_of};
use crate::units::ShotDetectionMode;
use vstd::prelude::*;
use vstd::std_specs::convert::FromSpecImpl;

verus! {

/// The bytes or the text that an event was made from, as they were on the wire.
#[derive(Debug, Clone)]
pub enum RawPayload {
    Binary(Vec<u8>),
    Text(String),
}

impl RawPayload {
    /// The payload as text: bytes in lower-case hexadecimal, text as it is.
    pub open spec fn spec_text(self) -> Seq<char> {
        match self {
            RawPayload::Binary(bytes) => hex_of(bytes@),
            RawPayload::Text(s) => s@,
        }
    }

    /// Renders the payload as text: bytes in lower-case hexadecimal without separators, text
    /// as it is.
    pub fn to_text(&self) -> (s: String)
        ensures
            s@ == self.spec_text(),
    {
        match self {
            RawPayload::Binary(bytes) => hex_encode(bytes),
            RawPayload::Text(s) => s.clone(),
        }
    }
}

/// What a launch monitor reports: a finished shot, or whether it is ready for one.
#[derive(Debug, Clone)]
pub enum LaunchMonitorEvent {
    ShotResult { shot: Box<ShotData> },
    ReadyState { armed: bool, ball_detected: bool },
}

/// The envelope of a launch monitor's event.
#[derive(Debug, Clone)]
pub struct LaunchMonitorRecv {
    pub event: LaunchMonitorEvent,
}

/// The announcement of a device session's new settings.
#[derive(Debug, Clone, Copy, PartialEq, Eq, Structural)]
pub struct ConfigChanged {
    pub config: MevoConfigEvent,
}

/// A change to the game state.
#[derive(Debug, Clone)]
pub enum GameStateCommandEvent {
    SetPlayerInfo { player_info: PlayerInfo },
    SetClubInfo { club_info: ClubInfo },
    SetMode { mode: ShotDetectionMode },
}

/// The envelope of a change to the game state.
#[derive(Debug, Clone)]
pub struct GameStateCommand {
    pub event: GameStateCommandEvent,
}

/// Data of a third party. `data` holds it as JSON text, which the library passes on unread.
#[derive(Debug, Clone)]
pub struct UserDataMessage {
    pub integration_type: String,
    pub source_id: String,
    pub data: String,
}

/// A change to the configuration.
#[derive(Debug, Clone)]
pub enum ConfigAction {
    ReplaceAll { config: FlighthookConfig },
    UpsertWebserver { index: String, section: WebserverSection },
    UpsertMevo { index: String, section: MevoSection },
    UpsertGsPro { index: String, section: GsProSection },
    UpsertMockMonitor { index: String, section: MockMonitorSection },
    UpsertRandomClub { index: String, section: RandomClubSection },
    Remove { id: String },
}

/// A request to change the configuration. Where it has a `request_id`, the outcome is
/// announced under the same id.
#[derive(Debug, Clone)]
pub struct ConfigCommand {
    pub request_id: Option<String>,
    pub action: ConfigAction,
}

/// What a change to the configuration did to the running actors.
#[derive(Debug, Clone)]
pub struct ConfigOutcome {
    pub request_id: String,
    pub restarted: Vec<String>,
    pub stopped: Vec<String>,
    pub started: Vec<String>,
}

/// How serious an alert is.
#[derive(Debug, Clone, Copy, PartialEq, Eq, Structural)]
pub enum AlertLevel {
    Warn,
    Error,
}

impl AlertLevel {
    /// The level's name on the wire.
    pub open spec fn spec_name(self) -> Seq<char> {
        match self {
            AlertLevel::Warn => "warn"@,
            AlertLevel::Error => "error"@,
        }
    }

    /// The level's name on the wire: `warn` or `error`.
    pub fn name(self) -> (s: &'static str)
        ensures
            s@ == self.spec_name(),
    {
        match self {
            AlertLevel::Warn => "warn",
            AlertLevel::Error => "error",
        }
    }
}

/// Something the user should see.
#[derive(Debug, Clone)]
pub struct AlertMessage {
    pub level: AlertLevel,
    pub message: String,
}

/// What a message says.
#[derive(Debug, Clone)]
pub enum FlighthookEvent {
    LaunchMonitor(LaunchMonitorRecv),
    ConfigChanged(ConfigChanged),
    GameStateCommand(GameStateCommand),
    GameStateSnapshot(GameStateSnapshot),
    UserData(UserDataMessage),
    ActorStatus(ActorState),
    ConfigCommand(ConfigCommand),
    ConfigOutcome(ConfigOutcome),
    Alert(AlertMessage),
}

impl From<LaunchMonitorEvent> for FlighthookEvent {
    fn from(event: LaunchMonitorEvent) -> (r: FlighthookEvent) {
        FlighthookEvent::LaunchMonitor(LaunchMonitorRecv { event })
    }
}

impl FromSpecImpl<LaunchMonitorEvent> for FlighthookEvent {
    open spec fn obeys_from_spec() -> bool {
        true
    }

    open spec fn from_spec(event: LaunchMonitorEvent) -> FlighthookEvent {
        FlighthookEvent::LaunchMonitor(LaunchMonitorRecv { event })
    }
}

impl From<GameStateCommandEvent> for FlighthookEvent {
    fn from(event: GameStateCommandEvent) -> (r: FlighthookEvent) {
        FlighthookEvent::GameStateCommand(GameStateCommand { event })
    }
}

impl FromSpecImpl<GameStateCommandEvent> for FlighthookEvent {
    open spec fn obeys_from_spec() -> bool {
        true
    }

    open spec fn from_spec(event: GameStateCommandEvent) -> FlighthookEvent {
        FlighthookEvent::GameStateCommand(GameStateCommand { event })
    }
}

impl From<ConfigChanged> for FlighthookEvent {
    fn from(changed: ConfigChanged) -> (r: FlighthookEvent) {
        FlighthookEvent::ConfigChanged(changed)
    }
}

impl FromSpecImpl<ConfigChanged> for FlighthookEvent {
    open spec fn obeys_from_spec() -> bool {
        true
    }

    open spec fn from_spec(changed: ConfigChanged) -> FlighthookEvent {
        FlighthookEvent::ConfigChanged(changed)
    }
}

impl From<ActorState> for FlighthookEvent {
    fn from(state: ActorState) -> (r: FlighthookEvent) {
        FlighthookEvent::ActorStatus(state)
    }
}

impl FromSpecImpl<ActorState> for FlighthookEvent {
    open spec fn obeys_from_spec() -> bool {
        true
    }

    open spec fn from_spec(state: ActorState) -> FlighthookEvent {
        FlighthookEvent::ActorStatus(state)
    }
}

impl From<ConfigCommand> for FlighthookEvent {
    fn from(command: ConfigCommand) -> (r: FlighthookEvent) {
        FlighthookEvent::ConfigCommand(command)
    }
}

impl FromSpecImpl<ConfigCommand> for FlighthookEvent {
    open spec fn obeys_from_spec() -> bool {
        true
    }

    open spec fn from_spec(command: ConfigCommand) -> FlighthookEvent {
        FlighthookEvent::ConfigCommand(command)
    }
}

impl From<ConfigOutcome> for FlighthookEvent {
    fn from(outcome: ConfigOutcome) -> (r: FlighthookEvent) {
        FlighthookEvent::ConfigOutcome(outcome)
    }
}

impl FromSpecImpl<ConfigOutcome> for FlighthookEvent {
    open spec fn obeys_from_spec() -> bool {
        true
    }

    open spec fn from_spec(outcome: ConfigOutcome) -> FlighthookEvent {
        FlighthookEvent::ConfigOutcome(outcome)
    }
}

impl From<AlertMessage> for FlighthookEvent {
    fn from(alert: AlertMessage) -> (r: FlighthookEvent) {
        FlighthookEvent::Alert(alert)
    }
}

impl FromSpecImpl<AlertMessage> for FlighthookEvent {
    open spec fn obeys_from_spec() -> bool {
        true
    }

    open spec fn from_spec(alert: AlertMessage) -> FlighthookEvent {
        FlighthookEvent::Alert(alert)
    }
}

/// The ids in a list, as plain texts.
pub open spec fn id_texts(ids: Vec<String>) -> Seq<Seq<char>> {
    ids@.map_values(|s: String| s@)
}

/// What an event says, with every text as a sequence of characters and every telemetry map
/// without regard to order.
pub enum EventView {
    Shot(ShotView),
    ReadyState { armed: bool, ball_detected: bool },
    ConfigChanged(MevoConfigEvent),
    SetPlayerInfo { handed: Seq<char> },
    SetClubInfo { club: Club },
    SetMode { mode: ShotDetectionMode },
    GameStateSnapshot {
        handed: Option<Seq<char>>,
        club: Option<Club>,
        mode: Option<ShotDetectionMode>,
    },
    UserData { integration_type: Seq<char>, source_id: Seq<char>, data: Seq<char> },
    ActorStatus { status: ActorStatus, telemetry: Map<Seq<char>, Seq<char>> },
    ConfigCommand { request_id: Option<Seq<char>>, action: ConfigAction },
    ConfigOutcome {
        request_id: Seq<char>,
        restarted: Seq<Seq<char>>,
        stopped: Seq<Seq<char>>,
        started: Seq<Seq<char>>,
    },
    Alert { level: AlertLevel, message: Seq<char> },
}

impl View for FlighthookEvent {
    type V = EventView;

    open spec fn view(&self) -> EventView {
        match *self {
            FlighthookEvent::LaunchMonitor(r) => match r.event {
                LaunchMonitorEvent::ShotResult { shot } => EventView::Shot(shot@),
                LaunchMonitorEvent::ReadyState { armed, ball_detected } => EventView::ReadyState {
                    armed,
                    ball_detected,
                },
            },
            FlighthookEvent::ConfigChanged(c) => EventView::ConfigChanged(c.config),
            FlighthookEvent::GameStateCommand(c) => match c.event {
                GameStateCommandEvent::SetPlayerInfo { player_info } => EventView::SetPlayerInfo {
                    handed: player_info.handed@,
                },
                GameStateCommandEvent::SetClubInfo { club_info } => EventView::SetClubInfo {
                    club: club_info.club,
                },
                GameStateCommandEvent::SetMode { mode } => EventView::SetMode { mode },
            },
            FlighthookEvent::GameStateSnapshot(s) => EventView::GameStateSnapshot {
                handed: match s.player_info {
                    Some(p) => Some(p.handed@),
                    None => None,
                },
                club: match s.club_info {
                    Some(c) => Some(c.club),
                    None => None,
                },
                mode: s.mode,
            },
            FlighthookEvent::UserData(u) => EventView::UserData {
                integration_type: u.integration_type@,
                source_id: u.source_id@,
                data: u.data@,
            },
            FlighthookEvent::ActorStatus(s) => EventView::ActorStatus {
                status: s.status,
                telemetry: telemetry_text(s.telemetry),
            },
            FlighthookEvent::ConfigCommand(c) => EventView::ConfigCommand {
                request_id: match c.request_id {
                    Some(id) => Some(id@),
                    None => None,
                },
                action: c.action,
            },
            FlighthookEvent::ConfigOutcome(o) => EventView::ConfigOutcome {
                request_id: o.request_id@,
                restarted: id_texts(o.restarted),
                stopped: id_texts(o.stopped),
                started: id_texts(o.started),
            },
            FlighthookEvent::Alert(a) => EventView::Alert { level: a.level, message: a.message@ },
        }
    }
}

/// What each event of a list says, in order.
pub open spec fn event_views(events: Seq<FlighthookEvent>) -> Seq<EventView> {
    events.map_values(|e: FlighthookEvent| e@)
}

impl FlighthookEvent {
    /// The event is an actor status whose telemetry holds a battery level.
    pub open spec fn spec_is_actor_status_with_telemetry(&self) -> bool {
        self matches FlighthookEvent::ActorStatus(s) && s.telemetry@.contains_key("battery_pct"@)
    }

    /// Whether the event is an actor status whose telemetry holds the key `battery_pct`: the
    /// periodic report of a device.
    pub fn is_actor_status_with_telemetry(&self) -> (r: bool)
        ensures
            r == self.spec_is_actor_status_with_telemetry(),
    {
        match self {
            FlighthookEvent::ActorStatus(state) => state.telemetry.contains_key("battery_pct"),
            _ => false,
        }
    }

    /// Wraps an alert.
    pub fn alert(level: AlertLevel, message: String) -> (e: FlighthookEvent)
        ensures
            e@ == (EventView::Alert { level, message: message@ }),
    {
        FlighthookEvent::Alert(AlertMessage { level, message })
    }

    /// Wraps a launch monitor's readiness.
    pub fn ready_state(armed: bool, ball_detected: bool) -> (e: FlighthookEvent)
        ensures
            e@ == (EventView::ReadyState { armed, ball_detected }),
    {
        FlighthookEvent::LaunchMonitor(
            LaunchMonitorRecv { event: LaunchMonitorEvent::ReadyState { armed, ball_detected } },
        )
    }

    /// Wraps an actor's status and telemetry.
    pub fn status(status: ActorStatus, telemetry: StrMap<String>) -> (e: FlighthookEvent)
        ensures
            e@ == (EventView::ActorStatus { status, telemetry: telemetry_text(telemetry) }),
    {
        FlighthookEvent::ActorStatus(ActorState { status, telemetry })
    }

    /// Wraps the announcement of a device session's settings.
    pub fn config_changed(config: MevoConfigEvent) -> (e: FlighthookEvent)
        ensures
            e@ == EventView::ConfigChanged(config),
    {
        FlighthookEvent::ConfigChanged(ConfigChanged { config })
    }

    /// Wraps a finished shot.
    pub fn shot(shot: ShotData) -> (e: FlighthookEvent)
        ensures
            e@ == EventView::Shot(shot@),
    {
        FlighthookEvent::LaunchMonitor(
            LaunchMonitorRecv { event: LaunchMonitorEvent::ShotResult { shot: Box::new(shot) } },
        )
    }

    /// Wraps a change of the detection mode.
    pub fn set_mode(mode: ShotDetectionMode) -> (e: FlighthookEvent)
        ensures
            e@ == (EventView::SetMode { mode }),
    {
        FlighthookEvent::GameStateCommand(
            GameStateCommand { event: GameStateCommandEvent::SetMode { mode } },
        )
    }

    /// Wraps a club selection.
    pub fn set_club(club: Club) -> (e: FlighthookEvent)
        ensures
            e@ == (EventView::SetClubInfo { club }),
    {
        FlighthookEvent::GameStateCommand(
            GameStateCommand {
                event: GameStateCommandEvent::SetClubInfo { club_info: ClubInfo { club } },
            },
        )
    }

    /// Wraps the player's handedness.
    pub fn set_player(handed: String) -> (e: FlighthookEvent)
        ensures
            e@ == (EventView::SetPlayerInfo { handed: handed@ }),
    {
        FlighthookEvent::GameStateCommand(
            GameStateCommand {
                event: GameStateCommandEvent::SetPlayerInfo {
                    player_info: PlayerInfo { handed },
                },
            },
        )
    }
}

/// One message on the bus. The sender's wrapper fills in `source`; whoever makes the message
/// leaves it empty.
#[derive(Debug, Clone)]
pub struct FlighthookMessage {
    pub source: String,
    pub timestamp: Timestamp,
    pub raw_payload: Option<RawPayload>,
    pub event: FlighthookEvent,
}

impl FlighthookMessage {
    /// A message that carries `event`, stamped with the time `timestamp`, without source or
    /// payload.
    pub fn at(event: FlighthookEvent, timestamp: Timestamp) -> (m: FlighthookMessage)
        ensures
            m.source@ == Seq::<char>::empty(),
            m.timestamp == timestamp,
            m.raw_payload is None,
            m.event == event,
    {
        FlighthookMessage { source: String::new(), timestamp, raw_payload: None, event }
    }

    /// A message that carries `event`, stamped with the current time, without source or
    /// payload.
    pub fn new(event: FlighthookEvent) -> (m: FlighthookMessage)
        ensures
            m.source@ == Seq::<char>::empty(),
            m.raw_payload is None,
            m.event == event,
    {
        FlighthookMessage::at(event, utc_now())
    }

    /// The same message with `source` as its source.
    pub fn source(self, source: String) -> (m: FlighthookMessage)
        ensures
            m.source == source,
            m.timestamp == self.timestamp,
            m.raw_payload == self.raw_payload,
            m.event == self.event,
    {
        FlighthookMessage {
            source,
            timestamp: self.timestamp,
            raw_payload: self.raw_payload,
            event: self.event,
        }
    }

    /// The same message with `raw` as its payload.
    pub fn raw(self, raw: RawPayload) -> (m: FlighthookMessage)
        ensures
            m.raw_payload == Some(raw),
            m.source == self.source,
            m.timestamp == self.timestamp,
            m.event == self.event,
    {
        FlighthookMessage {
            source: self.source,
            timestamp: self.timestamp,
            raw_payload: Some(raw),
            event: self.event,
        }
    }

    /// The same message with the bytes `raw` as its payload.
    pub fn raw_binary(self, raw: Vec<u8>) -> (m: FlighthookMessage)
        ensures
            m.raw_payload == Some(RawPayload::Binary(raw)),
            m.source == self.source,
            m.timestamp == self.timestamp,
            m.event == self.event,
    {
        FlighthookMessage {
            source: self.source,
            timestamp: self.timestamp,
            raw_payload: Some(RawPayload::Binary(raw)),
            event: self.event,
        }
    }
}

} // verus!
