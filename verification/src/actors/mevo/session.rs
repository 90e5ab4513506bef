//! The decisions of a device session: what to publish and what to ask of the device next, for
//! each thing that happens while the session runs.
//!
//! The caller owns the connection. It reports what happened, performs the request that comes
//! back and reports its result in turn.

use crate::actors::mevo::accumulator::{DeviceMessage, ShotAccumulator};
use crate::actors::mevo::client::{
    is_transient, spec_is_transient, spec_telemetry_state, telemetry_state, ConnErrorKind,
    ConnFailure, DeviceStatus, HandshakeInfo,
};
use crate::actors::mevo::settings::SessionConfig;
use crate::event::{new_telemetry, no_telemetry, put_text, ActorStatus};
use crate::message::{AlertLevel, EventView, FlighthookEvent};
use crate::text::{bool_text, bool_to_text};
use crate::units::ShotDetectionMode;
use vstd::prelude::*;
use vstd::string::*;

verus! {

/// After this many keepalives in a row that failed in passing, the device counts as gone.
pub const MAX_KEEPALIVE_FAILURES: u32 = 6;

/// An event to publish, with the bytes it was made from where it has any.
#[derive(Debug, Clone)]
pub struct Outgoing {
    pub event: FlighthookEvent,
    pub raw: Option<Vec<u8>>,
}

/// What an `Outgoing` says.
pub struct OutgoingView {
    pub event: EventView,
    pub raw: Option<Seq<u8>>,
}

impl View for Outgoing {
    type V = OutgoingView;

    open spec fn view(&self) -> OutgoingView {
        OutgoingView {
            event: self.event@,
            raw: match self.raw {
                Some(bytes) => Some(bytes@),
                None => None,
            },
        }
    }
}

/// What each item of a list says, in order.
pub open spec fn outgoing_views(items: Seq<Outgoing>) -> Seq<OutgoingView> {
    items.map_values(|o: Outgoing| o@)
}

/// An event without bytes.
pub open spec fn plain(event: EventView) -> OutgoingView {
    OutgoingView { event, raw: None }
}

/// What the caller does next.
#[derive(Debug, Clone, Copy, PartialEq, Eq, Structural)]
pub enum Next {
    /// Go on: look at the bus, then wait for the device.
    Continue,
    /// Send the session's settings for `mode` to the device and arm it, then report how that
    /// went.
    Rearm { mode: ShotDetectionMode },
    /// Tell the device that the shot is done, then report how that went.
    CompleteShot,
    /// Ask the device for its status, then report the answer.
    Keepalive,
    /// Close the connection. The session has ended as it should.
    Shutdown,
    /// The session has failed with a failure of this kind.
    Fail(ConnErrorKind),
}

/// What a step asks of the caller: events to publish, in order, and what to do next.
#[derive(Debug, Clone)]
pub struct Step {
    pub publish: Vec<Outgoing>,
    pub next: Next,
}

/// What taking in a message of the device gave: the step to follow, and whether the message
/// was a fragment that started a shot without a trigger marker before it.
#[derive(Debug, Clone)]
pub struct Taken {
    pub step: Step,
    pub auto_started: bool,
}

/// Why the device is being armed again.
#[derive(Debug, Clone, Copy, PartialEq, Eq, Structural)]
pub enum Pending {
    /// New settings came in.
    Reconfigure,
    /// The mode is to change to this one.
    ModeChange(ShotDetectionMode),
}

/// What the bus gave when it was polled.
#[derive(Debug, Clone)]
pub enum BusPoll {
    /// The actor is to stop.
    Shutdown,
    /// A message, of which the session looks at the event.
    Message(FlighthookEvent),
}

/// The state of a running session.
#[derive(Debug, Clone, Copy, PartialEq, Eq, Structural)]
pub struct DeviceSession {
    pub session_config: SessionConfig,
    pub current_mode: ShotDetectionMode,
    pub accumulator: ShotAccumulator,
    pub keepalive_failures: u32,
    pub pending: Option<Pending>,
}

/// The telemetry of an armed device: that it is armed, and in which mode.
pub open spec fn armed_telemetry(mode: ShotDetectionMode) -> Map<Seq<char>, Seq<char>> {
    no_telemetry().insert("armed"@, "true"@).insert("mode"@, SessionConfig::spec_mode_label(mode))
}

/// The status of a device.
pub open spec fn status(status: ActorStatus, telemetry: Map<Seq<char>, Seq<char>>) -> OutgoingView {
    plain(EventView::ActorStatus { status, telemetry })
}

/// The readiness of a device. It has no ball sensor, so a ball counts as detected exactly when
/// the device is armed.
pub open spec fn ready(armed: bool) -> OutgoingView {
    plain(EventView::ReadyState { armed, ball_detected: armed })
}

/// A warning for the user.
pub open spec fn warning(message: Seq<char>) -> OutgoingView {
    plain(EventView::Alert { level: AlertLevel::Warn, message })
}

/// What is published when the device stops being ready: it is starting over.
pub open spec fn going_down() -> Seq<OutgoingView> {
    seq![status(ActorStatus::Starting, no_telemetry()), ready(false)]
}

/// What is published when the device is ready again in `mode`.
pub open spec fn back_up(mode: ShotDetectionMode) -> Seq<OutgoingView> {
    seq![status(ActorStatus::Connected, armed_telemetry(mode)), ready(true)]
}

/// What is published after the handshake: the device's telemetry and description, and that it
/// is not ready yet.
pub open spec fn handshake_events(info: HandshakeInfo) -> Seq<OutgoingView> {
    seq![
        status(
            ActorStatus::Connected,
            spec_telemetry_state(
                info.battery_pct,
                info.tilt@,
                info.roll@,
                "0.0"@,
                info.external_power,
                false,
            ).insert("device_info"@, info.device_info@),
        ),
        ready(false),
    ]
}

/// What is published once the device is armed for the first time.
pub open spec fn first_armed_events(info: HandshakeInfo, mode: ShotDetectionMode) -> Seq<
    OutgoingView,
> {
    seq![
        status(
            ActorStatus::Connected,
            spec_telemetry_state(
                info.battery_pct,
                info.tilt@,
                info.roll@,
                "0.0"@,
                info.external_power,
                true,
            ).insert("mode"@, SessionConfig::spec_mode_label(mode)),
        ),
        ready(true),
    ]
}

/// The warning that a processed marker came but no shot could be made.
pub open spec fn no_result_text(acc: ShotAccumulator) -> Seq<char> {
    "Shot triggered but no result produced (D4="@ + bool_text(acc.flight is Some) + ", E8="@
        + bool_text(acc.flight_v1 is Some) + ", club="@ + bool_text(acc.club is Some) + ", spin="@
        + bool_text(acc.spin is Some) + ")"@
}

fn push_plain(out: &mut Vec<Outgoing>, event: FlighthookEvent)
    ensures
        outgoing_views(final(out)@) == outgoing_views(old(out)@).push(plain(event@)),
{
    out.push(Outgoing { event, raw: None });
    assert(outgoing_views(out@) =~= outgoing_views(old(out)@).push(plain(event@)));
}

fn push_shot(out: &mut Vec<Outgoing>, shot: crate::event::ShotData, raw: Vec<u8>)
    ensures
        outgoing_views(final(out)@) == outgoing_views(old(out)@).push(
            OutgoingView { event: EventView::Shot(shot@), raw: Some(raw@) },
        ),
{
    out.push(Outgoing { event: FlighthookEvent::shot(shot), raw: Some(raw) });
    assert(outgoing_views(out@) =~= outgoing_views(old(out)@).push(
        OutgoingView { event: EventView::Shot(shot@), raw: Some(raw@) },
    ));
}

fn push_status(out: &mut Vec<Outgoing>, actor_status: ActorStatus, telemetry: crate::StrMap<String>)
    ensures
        outgoing_views(final(out)@) == outgoing_views(old(out)@).push(
            status(actor_status, crate::event::telemetry_text(telemetry)),
        ),
{
    push_plain(out, FlighthookEvent::status(actor_status, telemetry));
}

fn push_ready(out: &mut Vec<Outgoing>, armed: bool)
    ensures
        outgoing_views(final(out)@) == outgoing_views(old(out)@).push(ready(armed)),
{
    push_plain(out, FlighthookEvent::ready_state(armed, armed));
}

fn push_warning(out: &mut Vec<Outgoing>, message: String)
    ensures
        outgoing_views(final(out)@) == outgoing_views(old(out)@).push(warning(message@)),
{
    push_plain(out, FlighthookEvent::alert(AlertLevel::Warn, message));
}

fn push_going_down(out: &mut Vec<Outgoing>)
    ensures
        outgoing_views(final(out)@) == outgoing_views(old(out)@) + going_down(),
{
    push_status(out, ActorStatus::Starting, new_telemetry());
    push_ready(out, false);
    assert(outgoing_views(out@) =~= outgoing_views(old(out)@) + going_down());
}

fn push_back_up(out: &mut Vec<Outgoing>, mode: ShotDetectionMode)
    ensures
        outgoing_views(final(out)@) == outgoing_views(old(out)@) + back_up(mode),
{
    let mut t = new_telemetry();
    put_text(&mut t, "armed", String::from_str("true"));
    put_text(&mut t, "mode", String::from_str(SessionConfig::mode_label(&mode)));
    push_status(out, ActorStatus::Connected, t);
    push_ready(out, true);
    assert(outgoing_views(out@) =~= outgoing_views(old(out)@) + back_up(mode));
}

fn new_list() -> (out: Vec<Outgoing>)
    ensures
        outgoing_views(out@) == Seq::<OutgoingView>::empty(),
{
    let out: Vec<Outgoing> = Vec::new();
    assert(outgoing_views(out@) =~= Seq::<OutgoingView>::empty());
    out
}

fn prefixed(prefix: &str, text: &str) -> (s: String)
    ensures
        s@ == prefix@ + text@,
{
    String::from_str(prefix).concat(text)
}

fn no_result_message(acc: &ShotAccumulator) -> (s: String)
    ensures
        s@ == no_result_text(*acc),
{
    let d4 = bool_to_text(acc.has_flight());
    let e8 = bool_to_text(acc.has_flight_v1());
    let club = bool_to_text(acc.has_club());
    let spin = bool_to_text(acc.has_spin());
    String::from_str("Shot triggered but no result produced (D4=").concat(d4.as_str()).concat(
        ", E8=",
    ).concat(e8.as_str()).concat(", club=").concat(club.as_str()).concat(", spin=").concat(
        spin.as_str(),
    ).concat(")")
}

impl DeviceSession {
    /// The session after the bus was polled.
    pub open spec fn spec_after_bus(self, poll: BusPoll) -> DeviceSession {
        match poll {
            BusPoll::Shutdown => self,
            BusPoll::Message(event) => match event@ {
                EventView::ConfigChanged(config) => DeviceSession {
                    session_config: SessionConfig::spec_from_config_event(config),
                    pending: Some(Pending::Reconfigure),
                    ..self
                },
                EventView::SetMode { mode } => if mode != self.current_mode {
                    DeviceSession { pending: Some(Pending::ModeChange(mode)), ..self }
                } else {
                    self
                },
                _ => self,
            },
        }
    }

    /// What is published after the bus was polled.
    pub open spec fn spec_bus_publish(self, poll: BusPoll) -> Seq<OutgoingView> {
        match poll {
            BusPoll::Shutdown => Seq::empty(),
            BusPoll::Message(event) => match event@ {
                EventView::ConfigChanged(_) => going_down(),
                EventView::SetMode { mode } => if mode != self.current_mode {
                    going_down()
                } else {
                    Seq::empty()
                },
                _ => Seq::empty(),
            },
        }
    }

    /// What the caller does after the bus was polled.
    pub open spec fn spec_bus_next(self, poll: BusPoll) -> Next {
        match poll {
            BusPoll::Shutdown => Next::Shutdown,
            BusPoll::Message(event) => match event@ {
                EventView::ConfigChanged(_) => Next::Rearm { mode: self.current_mode },
                EventView::SetMode { mode } => if mode != self.current_mode {
                    Next::Rearm { mode }
                } else {
                    Next::Continue
                },
                _ => Next::Continue,
            },
        }
    }

    /// The mode in which the device is armed once the pending request went through, and in
    /// which it stays armed where the request failed in passing.
    pub open spec fn spec_mode_after_rearm(self, ok: bool) -> ShotDetectionMode {
        match self.pending {
            Some(Pending::ModeChange(mode)) if ok => mode,
            _ => self.current_mode,
        }
    }

    /// The text before the message of a failure to arm again.
    pub open spec fn spec_rearm_failure_prefix(self) -> Seq<char> {
        match self.pending {
            Some(Pending::ModeChange(_)) => "Mode change failed: "@,
            _ => "Settings update failed: "@,
        }
    }

    /// What is published after an attempt to arm again.
    pub open spec fn spec_rearm_publish(self, result: Result<(), ConnFailure>) -> Seq<OutgoingView> {
        match result {
            Ok(_) => back_up(self.spec_mode_after_rearm(true)),
            Err(f) => if spec_is_transient(f.kind) {
                seq![warning(self.spec_rearm_failure_prefix() + f.text@)] + back_up(
                    self.current_mode,
                )
            } else {
                Seq::empty()
            },
        }
    }

    /// What the caller does after an attempt to arm again.
    pub open spec fn spec_rearm_next(result: Result<(), ConnFailure>) -> Next {
        match result {
            Ok(_) => Next::Continue,
            Err(f) => if spec_is_transient(f.kind) {
                Next::Continue
            } else {
                Next::Fail(f.kind)
            },
        }
    }

    /// What is published after a message of the device.
    pub open spec fn spec_received_publish(
        self,
        message: DeviceMessage,
        raw: Seq<u8>,
        source: Seq<char>,
    ) -> Seq<OutgoingView> {
        if message.spec_is_trigger() {
            seq![
                status(ActorStatus::Connected, no_telemetry().insert("shooting"@, "true"@)),
                ready(false),
            ]
        } else if message.spec_is_processed() {
            seq![
                match self.accumulator.spec_shot(source) {
                    Some(shot) => OutgoingView { event: EventView::Shot(shot), raw: Some(raw) },
                    None => warning(no_result_text(self.accumulator)),
                },
                status(ActorStatus::Starting, no_telemetry()),
            ]
        } else {
            Seq::empty()
        }
    }

    /// The session after a message of the device.
    pub open spec fn spec_after_received(self, message: DeviceMessage) -> DeviceSession {
        DeviceSession {
            keepalive_failures: 0,
            accumulator: if message.spec_is_processed() {
                self.accumulator.spec_after(message).spec_after_finalize()
            } else {
                self.accumulator.spec_after(message)
            },
            ..self
        }
    }

    /// A session that is about to start in `initial_mode` with the given settings.
    pub fn new(initial_mode: ShotDetectionMode, session_config: SessionConfig) -> (s: DeviceSession)
        ensures
            s.session_config == session_config,
            s.current_mode == initial_mode,
            s.accumulator == crate::actors::mevo::accumulator::cleared(false),
            s.keepalive_failures == 0,
            s.pending is None,
    {
        DeviceSession {
            session_config,
            current_mode: initial_mode,
            accumulator: ShotAccumulator::new(),
            keepalive_failures: 0,
            pending: None,
        }
    }

    /// What to publish once the handshake is through.
    pub fn on_handshake(&self, info: &HandshakeInfo) -> (out: Vec<Outgoing>)
        ensures
            outgoing_views(out@) == handshake_events(*info),
    {
        let mut out = new_list();
        let mut t = telemetry_state(
            info.battery_pct,
            info.tilt.as_str(),
            info.roll.as_str(),
            "0.0",
            info.external_power,
            false,
        );
        put_text(&mut t, "device_info", info.device_info.clone());
        push_status(&mut out, ActorStatus::Connected, t);
        push_ready(&mut out, false);
        assert(outgoing_views(out@) =~= handshake_events(*info));
        out
    }

    /// What to publish once the device is configured and armed for the first time.
    pub fn on_armed(&self, info: &HandshakeInfo) -> (out: Vec<Outgoing>)
        ensures
            outgoing_views(out@) == first_armed_events(*info, self.current_mode),
    {
        let mut out = new_list();
        let mut t = telemetry_state(
            info.battery_pct,
            info.tilt.as_str(),
            info.roll.as_str(),
            "0.0",
            info.external_power,
            true,
        );
        put_text(&mut t, "mode", String::from_str(SessionConfig::mode_label(&self.current_mode)));
        push_status(&mut out, ActorStatus::Connected, t);
        push_ready(&mut out, true);
        assert(outgoing_views(out@) =~= first_armed_events(*info, self.current_mode));
        out
    }

    /// Takes in what the bus gave. New settings are taken over and the device is armed again;
    /// a change to another mode has the device armed again in that mode; a request to stop
    /// ends the session; everything else is passed over.
    pub fn on_bus(&mut self, poll: &BusPoll) -> (step: Step)
        ensures
            *final(self) == old(self).spec_after_bus(*poll),
            outgoing_views(step.publish@) == old(self).spec_bus_publish(*poll),
            step.next == old(self).spec_bus_next(*poll),
    {
        let mut out = new_list();
        match poll {
            BusPoll::Shutdown => Step { publish: out, next: Next::Shutdown },
            BusPoll::Message(event) => match event {
                FlighthookEvent::ConfigChanged(changed) => {
                    self.session_config.apply_config_event(&changed.config);
                    self.pending = Some(Pending::Reconfigure);
                    push_going_down(&mut out);
                    assert(outgoing_views(out@) =~= going_down());
                    Step { publish: out, next: Next::Rearm { mode: self.current_mode } }
                },
                FlighthookEvent::GameStateCommand(command) => match &command.event {
                    crate::message::GameStateCommandEvent::SetMode { mode } => {
                        if *mode != self.current_mode {
                            self.pending = Some(Pending::ModeChange(*mode));
                            push_going_down(&mut out);
                            assert(outgoing_views(out@) =~= going_down());
                            Step { publish: out, next: Next::Rearm { mode: *mode } }
                        } else {
                            Step { publish: out, next: Next::Continue }
                        }
                    },
                    _ => Step { publish: out, next: Next::Continue },
                },
                _ => Step { publish: out, next: Next::Continue },
            },
        }
    }

    /// Takes in how arming again went. Where it went through, the device is ready in the mode
    /// that was asked for. Where it failed in passing, the user is warned and the device
    /// counts as ready in the mode it had. Any other failure ends the session.
    pub fn on_rearmed(&mut self, result: &Result<(), ConnFailure>) -> (step: Step)
        ensures
            final(self).current_mode == old(self).spec_mode_after_rearm(*result is Ok),
            final(self).pending is None,
            final(self).session_config == old(self).session_config,
            final(self).accumulator == old(self).accumulator,
            final(self).keepalive_failures == old(self).keepalive_failures,
            outgoing_views(step.publish@) == old(self).spec_rearm_publish(*result),
            step.next == Self::spec_rearm_next(*result),
    {
        let mut out = new_list();
        let pending = self.pending;
        self.pending = None;
        match result {
            Ok(_) => {
                match pending {
                    Some(Pending::ModeChange(mode)) => {
                        self.current_mode = mode;
                    },
                    _ => {},
                }
                push_back_up(&mut out, self.current_mode);
                assert(outgoing_views(out@) =~= back_up(self.current_mode));
                Step { publish: out, next: Next::Continue }
            },
            Err(failure) => {
                if is_transient(failure.kind) {
                    let prefix = match pending {
                        Some(Pending::ModeChange(_)) => "Mode change failed: ",
                        _ => "Settings update failed: ",
                    };
                    push_warning(&mut out, prefixed(prefix, failure.text.as_str()));
                    push_back_up(&mut out, self.current_mode);
                    assert(outgoing_views(out@) =~= old(self).spec_rearm_publish(*result));
                    Step { publish: out, next: Next::Continue }
                } else {
                    Step { publish: out, next: Next::Fail(failure.kind) }
                }
            },
        }
    }

    /// Takes in a message of the device. The trigger marker starts a shot and the device is
    /// no longer ready. The processed marker ends the shot: the shot is published with the
    /// marker's bytes, or the user is warned that there is none, and the device is told that
    /// the shot is done. Any other message only goes to the accumulator; the answer says
    /// whether it was a fragment that started a shot of itself, before any trigger marker.
    pub fn on_received(&mut self, message: &DeviceMessage, raw: Vec<u8>, source: &str) -> (taken:
        Taken)
        ensures
            *final(self) == old(self).spec_after_received(*message),
            outgoing_views(taken.step.publish@) == old(self).spec_received_publish(
                *message,
                raw@,
                source@,
            ),
            taken.step.next == (if message.spec_is_processed() {
                Next::CompleteShot
            } else {
                Next::Continue
            }),
            taken.auto_started == old(self).accumulator.spec_auto_starts(*message),
    {
        let mut out = new_list();
        self.keepalive_failures = 0;
        let auto_started = self.accumulator.handle(message);
        if message.is_trigger() {
            let mut t = new_telemetry();
            put_text(&mut t, "shooting", String::from_str("true"));
            push_status(&mut out, ActorStatus::Connected, t);
            push_ready(&mut out, false);
            assert(outgoing_views(out@) =~= old(self).spec_received_publish(
                *message,
                raw@,
                source@,
            ));
            Taken { step: Step { publish: out, next: Next::Continue }, auto_started }
        } else if message.is_processed() {
            let ghost before = self.accumulator;
            assert(before == old(self).accumulator);
            let text = no_result_message(&self.accumulator);
            let ghost first;
            match self.accumulator.finalize(source) {
                Some(shot) => {
                    proof {
                        first = OutgoingView { event: EventView::Shot(shot@), raw: Some(raw@) };
                    }
                    push_shot(&mut out, shot, raw);
                },
                None => {
                    proof {
                        first = warning(no_result_text(before));
                    }
                    push_warning(&mut out, text);
                },
            }
            push_status(&mut out, ActorStatus::Starting, new_telemetry());
            assert(outgoing_views(out@) =~= seq![
                first,
                status(ActorStatus::Starting, no_telemetry()),
            ]);
            assert(outgoing_views(out@) =~= old(self).spec_received_publish(
                *message,
                raw@,
                source@,
            ));
            Taken { step: Step { publish: out, next: Next::CompleteShot }, auto_started }
        } else {
            Taken { step: Step { publish: out, next: Next::Continue }, auto_started }
        }
    }

    /// Takes in how telling the device that the shot is done went. Where it went through, the
    /// device is ready again. A failure in passing has it tried again; any other failure ends
    /// the session.
    pub fn on_shot_completed(&self, result: &Result<(), ConnFailure>) -> (step: Step)
        ensures
            outgoing_views(step.publish@) == (match *result {
                Ok(_) => back_up(self.current_mode),
                Err(_) => Seq::<OutgoingView>::empty(),
            }),
            step.next == (match *result {
                Ok(_) => Next::Continue,
                Err(f) => if spec_is_transient(f.kind) {
                    Next::CompleteShot
                } else {
                    Next::Fail(f.kind)
                },
            }),
    {
        let mut out = new_list();
        match result {
            Ok(_) => {
                push_back_up(&mut out, self.current_mode);
                assert(outgoing_views(out@) =~= back_up(self.current_mode));
                Step { publish: out, next: Next::Continue }
            },
            Err(failure) => {
                if is_transient(failure.kind) {
                    Step { publish: out, next: Next::CompleteShot }
                } else {
                    Step { publish: out, next: Next::Fail(failure.kind) }
                }
            },
        }
    }

    /// Takes in that waiting for the device failed. After a timeout the device is asked for
    /// its status. A frame that cannot be decoded, or a message out of place, is reported to
    /// the user and dropped. A closed connection or a failed stream ends the session.
    pub fn on_receive_failed(&self, failure: &ConnFailure) -> (step: Step)
        ensures
            step.next == (match failure.kind {
                ConnErrorKind::Timeout => Next::Keepalive,
                ConnErrorKind::Wire | ConnErrorKind::Protocol => Next::Continue,
                ConnErrorKind::Disconnected => Next::Fail(ConnErrorKind::Disconnected),
                ConnErrorKind::Io => Next::Fail(ConnErrorKind::Io),
            }),
            outgoing_views(step.publish@) == (match failure.kind {
                ConnErrorKind::Wire | ConnErrorKind::Protocol => seq![
                    warning("Could not process message: "@ + failure.detail@),
                ],
                _ => Seq::<OutgoingView>::empty(),
            }),
    {
        let mut out = new_list();
        match failure.kind {
            ConnErrorKind::Timeout => Step { publish: out, next: Next::Keepalive },
            ConnErrorKind::Wire | ConnErrorKind::Protocol => {
                push_warning(
                    &mut out,
                    prefixed("Could not process message: ", failure.detail.as_str()),
                );
                assert(outgoing_views(out@) =~= seq![
                    warning("Could not process message: "@ + failure.detail@),
                ]);
                Step { publish: out, next: Next::Continue }
            },
            ConnErrorKind::Disconnected => Step {
                publish: out,
                next: Next::Fail(ConnErrorKind::Disconnected),
            },
            ConnErrorKind::Io => Step { publish: out, next: Next::Fail(ConnErrorKind::Io) },
        }
    }

    /// The count of failed keepalives after one more result.
    pub open spec fn spec_failures_after(self, result: Result<DeviceStatus, ConnFailure>) -> u32 {
        match result {
            Ok(_) => 0,
            Err(f) => if spec_is_transient(f.kind) && self.keepalive_failures
                < MAX_KEEPALIVE_FAILURES {
                (self.keepalive_failures + 1) as u32
            } else {
                self.keepalive_failures
            },
        }
    }

    /// What the caller does after a keepalive.
    pub open spec fn spec_keepalive_next(self, result: Result<DeviceStatus, ConnFailure>) -> Next {
        match result {
            Ok(_) => Next::Continue,
            Err(f) => if spec_is_transient(f.kind) {
                if self.keepalive_failures + 1 >= MAX_KEEPALIVE_FAILURES {
                    Next::Fail(ConnErrorKind::Disconnected)
                } else {
                    Next::Continue
                }
            } else {
                Next::Fail(f.kind)
            },
        }
    }

    /// Takes in the answer to a keepalive. A status is published as telemetry and clears the
    /// count of failures. A failure in passing is counted, and the sixth in a row ends the
    /// session as disconnected. Any other failure ends the session at once.
    pub fn on_keepalive(&mut self, result: &Result<DeviceStatus, ConnFailure>) -> (step: Step)
        ensures
            final(self).keepalive_failures == old(self).spec_failures_after(*result),
            final(self).session_config == old(self).session_config,
            final(self).current_mode == old(self).current_mode,
            final(self).accumulator == old(self).accumulator,
            final(self).pending == old(self).pending,
            step.next == old(self).spec_keepalive_next(*result),
            outgoing_views(step.publish@) == (match *result {
                Ok(s) => seq![
                    status(
                        ActorStatus::Connected,
                        spec_telemetry_state(
                            s.battery_pct,
                            s.tilt@,
                            s.roll@,
                            s.temp_c@,
                            s.external_power,
                            true,
                        ).insert("mode"@, SessionConfig::spec_mode_label(old(self).current_mode)),
                    ),
                ],
                Err(_) => Seq::<OutgoingView>::empty(),
            }),
    {
        let mut out = new_list();
        match result {
            Ok(device) => {
                self.keepalive_failures = 0;
                let mut t = telemetry_state(
                    device.battery_pct,
                    device.tilt.as_str(),
                    device.roll.as_str(),
                    device.temp_c.as_str(),
                    device.external_power,
                    true,
                );
                put_text(
                    &mut t,
                    "mode",
                    String::from_str(SessionConfig::mode_label(&self.current_mode)),
                );
                push_status(&mut out, ActorStatus::Connected, t);
                assert(outgoing_views(out@).len() == 1);
                assert(outgoing_views(out@) =~= seq![outgoing_views(out@)[0]]);
                Step { publish: out, next: Next::Continue }
            },
            Err(failure) => {
                if is_transient(failure.kind) {
                    if self.keepalive_failures < MAX_KEEPALIVE_FAILURES {
                        self.keepalive_failures = self.keepalive_failures + 1;
                    }
                    if self.keepalive_failures >= MAX_KEEPALIVE_FAILURES {
                        Step { publish: out, next: Next::Fail(ConnErrorKind::Disconnected) }
                    } else {
                        Step { publish: out, next: Next::Continue }
                    }
                } else {
                    Step { publish: out, next: Next::Fail(failure.kind) }
                }
            },
        }
    }
}

/// What is published when a session has failed: a warning with the failure's message, the
/// status, which is `Reconnecting` where the device was connected at some time before and
/// `Disconnected` where it never was, and that the device is not ready.
pub open spec fn session_failed_events(text: Seq<char>, ever_connected: bool) -> Seq<OutgoingView> {
    seq![
        warning("Device connection error: "@ + text),
        status(
            if ever_connected {
                ActorStatus::Reconnecting
            } else {
                ActorStatus::Disconnected
            },
            no_telemetry(),
        ),
        ready(false),
    ]
}

/// Says what to publish when a session has failed with the message `text`.
pub fn on_session_failed(text: &str, ever_connected: bool) -> (out: Vec<Outgoing>)
    ensures
        outgoing_views(out@) == session_failed_events(text@, ever_connected),
{
    let mut out = new_list();
    push_warning(&mut out, prefixed("Device connection error: ", text));
    let after = if ever_connected {
        ActorStatus::Reconnecting
    } else {
        ActorStatus::Disconnected
    };
    push_status(&mut out, after, new_telemetry());
    push_ready(&mut out, false);
    assert(outgoing_views(out@) =~= session_failed_events(text@, ever_connected));
    out
}

/// What a device actor publishes when it starts, before its first attempt to connect: the
/// settings it starts with.
pub fn on_actor_started(config: &SessionConfig) -> (out: Vec<Outgoing>)
    ensures
        outgoing_views(out@) == seq![
            plain(EventView::ConfigChanged(config.spec_to_config_event())),
        ],
{
    let mut out = new_list();
    push_plain(&mut out, FlighthookEvent::config_changed(config.to_config_event()));
    assert(outgoing_views(out@) =~= seq![
        plain(EventView::ConfigChanged(config.spec_to_config_event())),
    ]);
    out
}

/// What a device actor publishes before each attempt to connect: that it is starting.
pub fn on_connecting() -> (out: Vec<Outgoing>)
    ensures
        outgoing_views(out@) == seq![status(ActorStatus::Starting, no_telemetry())],
{
    let mut out = new_list();
    push_status(&mut out, ActorStatus::Starting, new_telemetry());
    assert(outgoing_views(out@) =~= seq![status(ActorStatus::Starting, no_telemetry())]);
    out
}

/// What a device actor publishes when it stops for good: that it is disconnected.
pub fn on_actor_stopped() -> (out: Vec<Outgoing>)
    ensures
        outgoing_views(out@) == seq![status(ActorStatus::Disconnected, no_telemetry())],
{
    let mut out = new_list();
    push_status(&mut out, ActorStatus::Disconnected, new_telemetry());
    assert(outgoing_views(out@) =~= seq![status(ActorStatus::Disconnected, no_telemetry())]);
    out
}

/// Six keepalives in a row that fail in passing end the session as disconnected, and not
/// fewer: after `n` such failures since the last success the next one ends the session exactly
/// when `n` is five or more.
pub proof fn lemma_keepalive_threshold(s: DeviceSession, failure: ConnFailure)
    requires
        spec_is_transient(failure.kind),
        s.keepalive_failures <= MAX_KEEPALIVE_FAILURES,
    ensures
        s.spec_keepalive_next(Err(failure)) == Next::Fail(ConnErrorKind::Disconnected)
            <==> s.keepalive_failures >= 5,
        s.spec_keepalive_next(Err(failure)) == Next::Continue <==> s.keepalive_failures < 5,
        s.spec_failures_after(Err(failure)) <= MAX_KEEPALIVE_FAILURES,
{
}

/// A message of the device, whatever it is, clears the count of failed keepalives.
pub proof fn lemma_received_clears_failures(s: DeviceSession, message: DeviceMessage)
    ensures
        s.spec_after_received(message).keepalive_failures == 0,
{
}

} // verus!
