//! The decisions of the simulator bridge: which shots it forwards, how ready it tells the
//! simulator the launch monitor is, and when it sends a heartbeat.

use crate::actors::gspro::api::GsProMessage;
use crate::clock::{add_capped, capped_sum};
use crate::event::ShotData;
use crate::message::{EventView, FlighthookEvent, LaunchMonitorEvent};
use crate::strmap::{Duplicate, StrMap};
use crate::text::str_eq;
use crate::units::{PartialMode, ShotDetectionMode};
use vstd::prelude::*;
use vstd::string::*;

verus! {

/// The time between two periodic heartbeats, in milliseconds.
pub const HEARTBEAT_PERIOD_MS: u64 = 10_000;

/// The time from the start of a connection to its first periodic heartbeat, in milliseconds.
pub const FIRST_HEARTBEAT_MS: u64 = 1_000;

/// For each mode, the id of the monitor whose shots the bridge takes. No id means that shots
/// of any monitor are taken.
#[derive(Debug, Clone)]
pub struct GsProRouting {
    pub full_monitor: Option<String>,
    pub chipping_monitor: Option<String>,
    pub putting_monitor: Option<String>,
}

impl Default for GsProRouting {
    fn default() -> (r: GsProRouting)
        ensures
            r.full_monitor is None,
            r.chipping_monitor is None,
            r.putting_monitor is None,
    {
        GsProRouting { full_monitor: None, chipping_monitor: None, putting_monitor: None }
    }
}

/// An optional id as plain text.
pub open spec fn id_of(id: Option<String>) -> Option<Seq<char>> {
    match id {
        Some(s) => Some(s@),
        None => None,
    }
}

impl GsProRouting {
    /// The monitor that the routing names for `mode`.
    pub open spec fn spec_target(&self, mode: ShotDetectionMode) -> Option<Seq<char>> {
        match mode {
            ShotDetectionMode::Full => id_of(self.full_monitor),
            ShotDetectionMode::Chipping => id_of(self.chipping_monitor),
            ShotDetectionMode::Putting => id_of(self.putting_monitor),
        }
    }

    /// Both routings name the same monitor for every mode.
    pub open spec fn same_routing(&self, other: &GsProRouting) -> bool {
        &&& id_of(self.full_monitor) == id_of(other.full_monitor)
        &&& id_of(self.chipping_monitor) == id_of(other.chipping_monitor)
        &&& id_of(self.putting_monitor) == id_of(other.putting_monitor)
    }

    /// The monitor that the routing names for `mode`.
    pub fn target(&self, mode: ShotDetectionMode) -> (t: &Option<String>)
        ensures
            id_of(*t) == self.spec_target(mode),
    {
        match mode {
            ShotDetectionMode::Full => &self.full_monitor,
            ShotDetectionMode::Chipping => &self.chipping_monitor,
            ShotDetectionMode::Putting => &self.putting_monitor,
        }
    }

    /// A copy of the routing.
    pub fn duplicate(&self) -> (r: GsProRouting)
        ensures
            r == *self,
    {
        GsProRouting {
            full_monitor: self.full_monitor.duplicate(),
            chipping_monitor: self.chipping_monitor.duplicate(),
            putting_monitor: self.putting_monitor.duplicate(),
        }
    }

    /// Whether both routings name the same monitor for every mode.
    pub fn equals(&self, other: &GsProRouting) -> (r: bool)
        ensures
            r == self.same_routing(other),
    {
        same_id(&self.full_monitor, &other.full_monitor) && same_id(
            &self.chipping_monitor,
            &other.chipping_monitor,
        ) && same_id(&self.putting_monitor, &other.putting_monitor)
    }
}

/// Whether two optional ids are the same.
pub fn same_id(a: &Option<String>, b: &Option<String>) -> (r: bool)
    ensures
        r == (id_of(*a) == id_of(*b)),
{
    match (a, b) {
        (Some(x), Some(y)) => str_eq(x.as_str(), y.as_str()),
        (None, None) => true,
        _ => false,
    }
}

/// The policy lets an estimated shot through in `mode`.
pub open spec fn partial_allowed(mode: ShotDetectionMode, policy: PartialMode) -> bool {
    match policy {
        PartialMode::Always => true,
        PartialMode::ChippingOnly => mode == ShotDetectionMode::Chipping,
        PartialMode::Never => false,
    }
}

/// The routing takes shots of `source` in `mode`: it names no monitor for the mode, or it
/// names `source`.
pub open spec fn routing_matches(
    routing: &GsProRouting,
    mode: ShotDetectionMode,
    source: Seq<char>,
) -> bool {
    match routing.spec_target(mode) {
        Some(id) => source == id,
        None => true,
    }
}

/// A shot of `source` is forwarded in `mode`: the routing takes shots of `source`, and the shot
/// is not estimated or the policy lets estimated shots through.
pub open spec fn forwards(
    routing: &GsProRouting,
    mode: ShotDetectionMode,
    policy: PartialMode,
    source: Seq<char>,
    estimated: bool,
) -> bool {
    routing_matches(routing, mode, source) && (!estimated || partial_allowed(mode, policy))
}

/// Decides whether an estimated shot is forwarded under `use_partial` in `mode`.
pub fn should_forward_partial(mode: ShotDetectionMode, use_partial: PartialMode) -> (r: bool)
    ensures
        r == partial_allowed(mode, use_partial),
{
    match use_partial {
        PartialMode::Always => true,
        PartialMode::ChippingOnly => mode == ShotDetectionMode::Chipping,
        PartialMode::Never => false,
    }
}

/// Decides whether the routing takes shots of `source` in `mode`.
pub fn shot_matches_routing(routing: &GsProRouting, mode: ShotDetectionMode, source: &str) -> (r:
    bool)
    ensures
        r == routing_matches(routing, mode, source@),
{
    match routing.target(mode) {
        Some(id) => str_eq(source, id.as_str()),
        None => true,
    }
}

/// How ready a launch monitor is.
#[derive(Debug, Clone, Copy, PartialEq, Eq, Structural)]
pub struct Readiness {
    pub armed: bool,
    pub ball_detected: bool,
}

impl Duplicate for Readiness {
    fn duplicate(&self) -> (r: Readiness) {
        *self
    }
}

/// Not armed, no ball.
pub open spec fn not_ready() -> Readiness {
    Readiness { armed: false, ball_detected: false }
}

/// Some monitor among the first `n` is armed.
pub open spec fn any_armed(states: Seq<Readiness>, n: int) -> bool {
    exists|i: int| 0 <= i < n && i < states.len() && (#[trigger] states[i]).armed
}

/// Some monitor among the first `n` has a ball.
pub open spec fn any_ball(states: Seq<Readiness>, n: int) -> bool {
    exists|i: int| 0 <= i < n && i < states.len() && (#[trigger] states[i]).ball_detected
}

/// The readiness that the bridge reports in `mode`. Where the routing names a monitor, it is
/// that monitor's readiness, and not ready where nothing is known of the monitor. Where it
/// names none, the bridge is armed when any monitor is, and has a ball when any monitor has.
pub open spec fn spec_readiness(
    routing: &GsProRouting,
    mode: ShotDetectionMode,
    states: &StrMap<Readiness>,
) -> Readiness {
    match routing.spec_target(mode) {
        Some(id) => if states@.contains_key(id) {
            states@[id]
        } else {
            not_ready()
        },
        None => Readiness {
            armed: any_armed(states.values(), states.values().len() as int),
            ball_detected: any_ball(states.values(), states.values().len() as int),
        },
    }
}

/// Computes the readiness that the bridge reports in `mode` from what is known of each
/// monitor.
pub fn readiness(routing: &GsProRouting, mode: ShotDetectionMode, states: &StrMap<Readiness>) -> (r:
    Readiness)
    ensures
        r == spec_readiness(routing, mode, states),
{
    match routing.target(mode) {
        Some(id) => match states.get(id.as_str()) {
            Some(state) => *state,
            None => Readiness { armed: false, ball_detected: false },
        },
        None => {
            let mut armed = false;
            let mut ball = false;
            let n: usize = states.len();
            let mut i: usize = 0;
            while i < n
                invariant
                    i <= n,
                    n == states.values().len(),
                    n == states.keys().len(),
                    armed == any_armed(states.values(), i as int),
                    ball == any_ball(states.values(), i as int),
                decreases n - i,
            {
                let state = states.value_at(i);
                proof {
                    let grown = (i + 1) as int;
                    if state.armed {
                        assert(states.values()[i as int].armed);
                    }
                    if state.ball_detected {
                        assert(states.values()[i as int].ball_detected);
                    }
                    if any_armed(states.values(), grown) && !state.armed {
                        let w = choose|w: int|
                            0 <= w < grown && w < states.values().len() && (
                            #[trigger] states.values()[w]).armed;
                        assert(w < i);
                    }
                    if any_ball(states.values(), grown) && !state.ball_detected {
                        let w = choose|w: int|
                            0 <= w < grown && w < states.values().len() && (
                            #[trigger] states.values()[w]).ball_detected;
                        assert(w < i);
                    }
                }
                armed = armed || state.armed;
                ball = ball || state.ball_detected;
                i = i + 1;
            }
            Readiness { armed, ball_detected: ball }
        },
    }
}

/// What a run through the messages of the bus has gathered: the shots to forward, in the
/// order in which they came, and whether anything happened that may have changed the
/// readiness.
#[derive(Debug, Clone)]
pub struct Drained {
    pub shots_to_send: Vec<ShotData>,
    pub readiness_changed: bool,
}

/// What the bridge knows while it is connected.
#[derive(Debug, Clone)]
pub struct BridgeState {
    pub routing: GsProRouting,
    pub current_mode: ShotDetectionMode,
    pub use_partial: PartialMode,
    pub monitor_state: StrMap<Readiness>,
    pub prev_readiness: Readiness,
    pub heartbeat_due_ms: u64,
}

impl BridgeState {
    /// The mode after an event: a change of mode sets it.
    pub open spec fn spec_mode_after(&self, event: EventView) -> ShotDetectionMode {
        match event {
            EventView::SetMode { mode } => mode,
            _ => self.current_mode,
        }
    }

    /// The policy after an event: an announcement of session settings sets it.
    pub open spec fn spec_policy_after(&self, event: EventView) -> PartialMode {
        match event {
            EventView::ConfigChanged(config) => config.use_partial,
            _ => self.use_partial,
        }
    }

    /// What is known of the monitors after an event of `source`. A readiness report is taken
    /// down. A monitor that is already known and reports that it is disconnected or
    /// reconnecting counts as not ready.
    pub open spec fn spec_monitors_after(&self, source: Seq<char>, event: EventView) -> Map<
        Seq<char>,
        Readiness,
    > {
        match event {
            EventView::ReadyState { armed, ball_detected } => self.monitor_state@.insert(
                source,
                Readiness { armed, ball_detected },
            ),
            EventView::ActorStatus { status, telemetry } => if status.spec_is_down()
                && self.monitor_state@.contains_key(source) {
                self.monitor_state@.insert(source, not_ready())
            } else {
                self.monitor_state@
            },
            _ => self.monitor_state@,
        }
    }

    /// The event may have changed the readiness: a readiness report, a change of mode, or a
    /// known monitor that went down.
    pub open spec fn spec_touches_readiness(&self, source: Seq<char>, event: EventView) -> bool {
        match event {
            EventView::ReadyState { .. } => true,
            EventView::SetMode { .. } => true,
            EventView::ActorStatus { status, telemetry } => status.spec_is_down()
                && self.monitor_state@.contains_key(source),
            _ => false,
        }
    }

    /// The event is a shot that the bridge forwards.
    pub open spec fn spec_accepts(&self, source: Seq<char>, event: EventView) -> bool {
        event matches EventView::Shot(shot) && forwards(
            &self.routing,
            self.current_mode,
            self.use_partial,
            source,
            shot.estimated,
        )
    }

    /// The shots to forward after an event of `source`: a shot that the bridge forwards stands
    /// behind those that wait already; nothing else changes them.
    pub open spec fn spec_shots_after(
        &self,
        source: Seq<char>,
        event: FlighthookEvent,
        shots: Seq<ShotData>,
    ) -> Seq<ShotData> {
        match event {
            FlighthookEvent::LaunchMonitor(recv) => match recv.event {
                LaunchMonitorEvent::ShotResult { shot } => if forwards(
                    &self.routing,
                    self.current_mode,
                    self.use_partial,
                    source,
                    shot.estimated,
                ) {
                    shots.push(*shot)
                } else {
                    shots
                },
                _ => shots,
            },
            _ => shots,
        }
    }

    /// A bridge that has just connected at the time `now_ms`: full mode, partial shots for
    /// chipping only, nothing known of any monitor, and the first heartbeat due in a second.
    pub fn new(routing: GsProRouting, now_ms: u64) -> (s: BridgeState)
        ensures
            s.routing == routing,
            s.current_mode == ShotDetectionMode::Full,
            s.use_partial == PartialMode::ChippingOnly,
            s.monitor_state@ == Map::<Seq<char>, Readiness>::empty(),
            s.prev_readiness == not_ready(),
            s.heartbeat_due_ms == capped_sum(now_ms, FIRST_HEARTBEAT_MS),
    {
        BridgeState {
            routing,
            current_mode: ShotDetectionMode::Full,
            use_partial: PartialMode::ChippingOnly,
            monitor_state: StrMap::new(),
            prev_readiness: Readiness { armed: false, ball_detected: false },
            heartbeat_due_ms: add_capped(now_ms, FIRST_HEARTBEAT_MS),
        }
    }

    /// Takes in one message of the bus, sent by `source`. A shot that the bridge forwards
    /// is put behind the shots that wait already, so that every such shot goes out, in the
    /// order of arrival; any other shot is dropped. Everything else updates what the bridge
    /// knows.
    pub fn on_bus_event(&mut self, source: &str, event: &FlighthookEvent, drained: &mut Drained)
        ensures
            final(self).routing == old(self).routing,
            final(self).prev_readiness == old(self).prev_readiness,
            final(self).heartbeat_due_ms == old(self).heartbeat_due_ms,
            final(self).current_mode == old(self).spec_mode_after(event@),
            final(self).use_partial == old(self).spec_policy_after(event@),
            final(self).monitor_state@ == old(self).spec_monitors_after(source@, event@),
            final(drained).readiness_changed == (old(drained).readiness_changed
                || old(self).spec_touches_readiness(source@, event@)),
            final(drained).shots_to_send@ == old(self).spec_shots_after(
                source@,
                *event,
                old(drained).shots_to_send@,
            ),
            old(self).spec_accepts(source@, event@) <==> final(drained).shots_to_send@.len()
                == old(drained).shots_to_send@.len() + 1,
    {
        match event {
            FlighthookEvent::LaunchMonitor(recv) => match &recv.event {
                LaunchMonitorEvent::ShotResult { shot } => {
                    if shot_matches_routing(&self.routing, self.current_mode, source) && (
                    !shot.estimated || should_forward_partial(self.current_mode, self.use_partial))
                    {
                        drained.shots_to_send.push(shot.duplicate());
                    }
                },
                LaunchMonitorEvent::ReadyState { armed, ball_detected } => {
                    self.monitor_state.insert(
                        String::from_str(source),
                        Readiness { armed: *armed, ball_detected: *ball_detected },
                    );
                    drained.readiness_changed = true;
                },
            },
            FlighthookEvent::ConfigChanged(changed) => {
                self.use_partial = changed.config.use_partial;
            },
            FlighthookEvent::GameStateCommand(command) => match &command.event {
                crate::message::GameStateCommandEvent::SetMode { mode } => {
                    self.current_mode = *mode;
                    drained.readiness_changed = true;
                },
                _ => {},
            },
            FlighthookEvent::ActorStatus(state) => {
                if state.status.is_down() && self.monitor_state.contains_key(source) {
                    self.monitor_state.insert(
                        String::from_str(source),
                        Readiness { armed: false, ball_detected: false },
                    );
                    drained.readiness_changed = true;
                }
            },
            _ => {},
        }
    }

    /// A heartbeat goes out at `now_ms`: the readiness may have changed and differs from what
    /// was last reported, or the periodic heartbeat is due.
    pub open spec fn spec_heartbeat_due(&self, readiness_changed: bool, now_ms: u64) -> bool {
        (readiness_changed && spec_readiness(&self.routing, self.current_mode, &self.monitor_state)
            != self.prev_readiness) || now_ms >= self.heartbeat_due_ms
    }

    /// Decides at the time `now_ms` whether a heartbeat goes out, and makes it. A heartbeat
    /// reports the current readiness, and the next periodic heartbeat is due ten seconds
    /// after it.
    pub fn heartbeat(&mut self, readiness_changed: bool, now_ms: u64) -> (beat: Option<
        GsProMessage,
    >)
        ensures
            final(self).routing == old(self).routing,
            final(self).current_mode == old(self).current_mode,
            final(self).use_partial == old(self).use_partial,
            final(self).monitor_state == old(self).monitor_state,
            beat is Some == old(self).spec_heartbeat_due(readiness_changed, now_ms),
            match beat {
                Some(m) => {
                    let r = spec_readiness(
                        &old(self).routing,
                        old(self).current_mode,
                        &old(self).monitor_state,
                    );
                    &&& m.is_heartbeat(r.armed, r.ball_detected)
                    &&& final(self).prev_readiness == r
                    &&& final(self).heartbeat_due_ms == capped_sum(now_ms, HEARTBEAT_PERIOD_MS)
                },
                None => final(self).prev_readiness == old(self).prev_readiness && final(self).heartbeat_due_ms == old(self).heartbeat_due_ms,
            },
    {
        let current = readiness(&self.routing, self.current_mode, &self.monitor_state);
        if (readiness_changed && current != self.prev_readiness) || now_ms
            >= self.heartbeat_due_ms {
            self.prev_readiness = current;
            self.heartbeat_due_ms = add_capped(now_ms, HEARTBEAT_PERIOD_MS);
            Some(GsProMessage::heartbeat_with_readiness(current.armed, current.ball_detected))
        } else {
            None
        }
    }
}

impl Drained {
    /// Nothing gathered yet.
    pub fn new() -> (d: Drained)
        ensures
            d.shots_to_send@.len() == 0,
            !d.readiness_changed,
    {
        Drained { shots_to_send: Vec::new(), readiness_changed: false }
    }
}

/// The event carries the shot `shot`.
pub open spec fn carries(event: FlighthookEvent, shot: ShotData) -> bool {
    event matches FlighthookEvent::LaunchMonitor(recv) && (
    recv.event matches LaunchMonitorEvent::ShotResult { shot: carried } && *carried == shot)
}

/// Every shot that the bridge forwards goes out, in the order of arrival: of two such shots
/// that come one after the other, both wait behind the shots that waited before, the first
/// before the second. A shot that the bridge does not forward leaves the waiting shots as
/// they are.
pub proof fn lemma_shots_in_order(
    s: BridgeState,
    first_source: Seq<char>,
    first: FlighthookEvent,
    first_shot: ShotData,
    second_source: Seq<char>,
    second: FlighthookEvent,
    second_shot: ShotData,
    waiting: Seq<ShotData>,
)
    requires
        carries(first, first_shot),
        carries(second, second_shot),
    ensures
        s.spec_accepts(first_source, first@) && s.spec_accepts(second_source, second@)
            ==> s.spec_shots_after(
            second_source,
            second,
            s.spec_shots_after(first_source, first, waiting),
        ) == waiting.push(first_shot).push(second_shot),
        !s.spec_accepts(first_source, first@) ==> s.spec_shots_after(
            first_source,
            first,
            waiting,
        ) == waiting,
{
}

/// The routing law. A shot of source `source` in mode `mode` is forwarded exactly when the
/// routing for the mode names no monitor or names `source`, and the shot is not estimated or
/// the policy lets estimated shots through in that mode.
pub proof fn lemma_routing_law(
    routing: GsProRouting,
    mode: ShotDetectionMode,
    policy: PartialMode,
    source: Seq<char>,
    estimated: bool,
)
    ensures
        forwards(&routing, mode, policy, source, estimated) <==> (routing.spec_target(mode)
            is None || routing.spec_target(mode) == Some(source)) && (!estimated || policy
            == PartialMode::Always || (policy == PartialMode::ChippingOnly && mode
            == ShotDetectionMode::Chipping)),
{
}

/// A heartbeat is never late. Whenever the bridge is asked at or after the time at which the
/// periodic heartbeat is due, one goes out; whenever the readiness has changed from what was
/// last reported, one goes out at once; and after any heartbeat the next one is due within
/// ten seconds.
pub proof fn lemma_heartbeat_cadence(s: BridgeState, readiness_changed: bool, now_ms: u64)
    ensures
        now_ms >= s.heartbeat_due_ms ==> s.spec_heartbeat_due(readiness_changed, now_ms),
        readiness_changed && spec_readiness(&s.routing, s.current_mode, &s.monitor_state)
            != s.prev_readiness ==> s.spec_heartbeat_due(readiness_changed, now_ms),
        capped_sum(now_ms, HEARTBEAT_PERIOD_MS) - now_ms <= HEARTBEAT_PERIOD_MS,
{
}

} // verus!
