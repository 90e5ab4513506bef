//! The simulated launch monitor: it is always ready and produces a shot every thirty seconds.

use crate::clock::{add_capped, capped_sum};
use crate::event::{new_telemetry, no_telemetry, put_text, telemetry_text, ActorStatus, ShotData};
use crate::message::{event_views, EventView, FlighthookEvent, GameStateCommandEvent};
use crate::strmap::StrMap;
use crate::text::{i64_to_decimal, signed_decimal};
use crate::units::ShotDetectionMode;
use vstd::prelude::*;
use vstd::string::*;

verus! {

/// The time between two shots, in milliseconds.
pub const SHOT_INTERVAL_MS: u64 = 30_000;

/// The time from the start to the first shot, in milliseconds.
pub const FIRST_SHOT_MS: u64 = 1_000;

/// The name of a mode in the telemetry.
pub fn mode_str(mode: ShotDetectionMode) -> (s: &'static str)
    ensures
        s@ == mode.spec_name(),
{
    mode.name()
}

/// The telemetry of the simulated monitor: what it is, how many shots it has made, and the
/// mode it tracks.
pub open spec fn spec_telemetry(shot_count: i32, mode: ShotDetectionMode) -> Map<
    Seq<char>,
    Seq<char>,
> {
    no_telemetry().insert("device_info"@, "Mock Launch Monitor (simulated)"@).insert(
        "shot_count"@,
        signed_decimal(shot_count as int),
    ).insert("tracking_mode"@, mode.spec_name())
}

/// Builds the telemetry of the simulated monitor.
pub fn telemetry(shot_count: i32, mode: ShotDetectionMode) -> (t: StrMap<String>)
    ensures
        telemetry_text(t) == spec_telemetry(shot_count, mode),
{
    let mut t = new_telemetry();
    put_text(&mut t, "device_info", String::from_str("Mock Launch Monitor (simulated)"));
    put_text(&mut t, "shot_count", i64_to_decimal(shot_count as i64));
    put_text(&mut t, "tracking_mode", String::from_str(mode_str(mode)));
    t
}

/// What the simulated monitor knows: its mode, how many shots it has made, and when the next
/// one is due.
#[derive(Debug, Clone, Copy, PartialEq, Eq, Structural)]
pub struct MockLaunch {
    pub current_mode: ShotDetectionMode,
    pub shot_count: i32,
    pub next_shot_ms: u64,
}

/// The status of the simulated monitor.
pub open spec fn connected(telemetry: Map<Seq<char>, Seq<char>>) -> EventView {
    EventView::ActorStatus { status: ActorStatus::Connected, telemetry }
}

impl MockLaunch {
    /// A simulated monitor that starts at the time `now_ms`; its first shot is due a second
    /// later.
    pub fn new(initial_mode: ShotDetectionMode, now_ms: u64) -> (m: MockLaunch)
        ensures
            m.current_mode == initial_mode,
            m.shot_count == 0,
            m.next_shot_ms == capped_sum(now_ms, FIRST_SHOT_MS),
    {
        MockLaunch {
            current_mode: initial_mode,
            shot_count: 0,
            next_shot_ms: add_capped(now_ms, FIRST_SHOT_MS),
        }
    }

    /// What the monitor publishes when it starts: that it is connected, and ready.
    pub fn ready_events(&self) -> (out: Vec<FlighthookEvent>)
        ensures
            event_views(out@) == seq![
                connected(spec_telemetry(self.shot_count, self.current_mode)),
                EventView::ReadyState { armed: true, ball_detected: true },
            ],
    {
        let mut out: Vec<FlighthookEvent> = Vec::new();
        out.push(
            FlighthookEvent::status(
                ActorStatus::Connected,
                telemetry(self.shot_count, self.current_mode),
            ),
        );
        out.push(FlighthookEvent::ready_state(true, true));
        assert(event_views(out@) =~= seq![
            connected(spec_telemetry(self.shot_count, self.current_mode)),
            EventView::ReadyState { armed: true, ball_detected: true },
        ]);
        out
    }

    /// Takes in an event of the bus. A change to another mode is taken over; the result says
    /// whether the mode has changed.
    pub fn on_bus_event(&mut self, event: &FlighthookEvent) -> (changed: bool)
        ensures
            final(self).shot_count == old(self).shot_count,
            final(self).next_shot_ms == old(self).next_shot_ms,
            match event@ {
                EventView::SetMode { mode } => final(self).current_mode == mode && changed == (mode
                    != old(self).current_mode),
                _ => final(self).current_mode == old(self).current_mode && !changed,
            },
    {
        match event {
            FlighthookEvent::GameStateCommand(command) => match &command.event {
                GameStateCommandEvent::SetMode { mode } => {
                    let changed = *mode != self.current_mode;
                    self.current_mode = *mode;
                    changed
                },
                _ => false,
            },
            _ => false,
        }
    }

    /// What the monitor publishes after its mode has changed: its telemetry with the new mode.
    pub fn mode_events(&self) -> (out: Vec<FlighthookEvent>)
        ensures
            event_views(out@) == seq![
                connected(spec_telemetry(self.shot_count, self.current_mode)),
            ],
    {
        let mut out: Vec<FlighthookEvent> = Vec::new();
        out.push(
            FlighthookEvent::status(
                ActorStatus::Connected,
                telemetry(self.shot_count, self.current_mode),
            ),
        );
        assert(event_views(out@) =~= seq![
            connected(spec_telemetry(self.shot_count, self.current_mode)),
        ]);
        out
    }

    /// What the monitor publishes when it is told to stop: that it is disconnected.
    pub fn stopped_events(&self) -> (out: Vec<FlighthookEvent>)
        ensures
            event_views(out@) == seq![
                EventView::ActorStatus {
                    status: ActorStatus::Disconnected,
                    telemetry: no_telemetry(),
                },
            ],
    {
        let mut out: Vec<FlighthookEvent> = Vec::new();
        out.push(FlighthookEvent::status(ActorStatus::Disconnected, new_telemetry()));
        assert(event_views(out@) =~= seq![
            EventView::ActorStatus { status: ActorStatus::Disconnected, telemetry: no_telemetry() },
        ]);
        out
    }

    /// Decides at the time `now_ms` whether a shot is due. Where one is, it returns the shot's
    /// number, and the next shot is due thirty seconds later.
    pub fn shot_due(&mut self, now_ms: u64) -> (number: Option<i32>)
        ensures
            final(self).current_mode == old(self).current_mode,
            number is Some <==> now_ms >= old(self).next_shot_ms && old(self).shot_count
                < i32::MAX,
            match number {
                Some(n) => n == old(self).shot_count + 1 && final(self).shot_count == n
                    && final(self).next_shot_ms == capped_sum(now_ms, SHOT_INTERVAL_MS),
                None => *final(self) == *old(self),
            },
    {
        if now_ms >= self.next_shot_ms && self.shot_count < i32::MAX {
            self.shot_count = self.shot_count + 1;
            self.next_shot_ms = add_capped(now_ms, SHOT_INTERVAL_MS);
            Some(self.shot_count)
        } else {
            None
        }
    }

    /// What the monitor publishes for a shot: that it is shooting and not ready, the shot,
    /// and that it is ready again.
    pub fn shot_events(&self, shot: ShotData) -> (out: Vec<FlighthookEvent>)
        ensures
            event_views(out@) == seq![
                connected(
                    spec_telemetry(self.shot_count, self.current_mode).insert(
                        "shooting"@,
                        "true"@,
                    ),
                ),
                EventView::ReadyState { armed: false, ball_detected: false },
                EventView::Shot(shot@),
                connected(spec_telemetry(self.shot_count, self.current_mode)),
                EventView::ReadyState { armed: true, ball_detected: true },
            ],
    {
        let mut shooting = telemetry(self.shot_count, self.current_mode);
        put_text(&mut shooting, "shooting", String::from_str("true"));
        let mut out: Vec<FlighthookEvent> = Vec::new();
        out.push(FlighthookEvent::status(ActorStatus::Connected, shooting));
        out.push(FlighthookEvent::ready_state(false, false));
        out.push(FlighthookEvent::shot(shot));
        out.push(
            FlighthookEvent::status(
                ActorStatus::Connected,
                telemetry(self.shot_count, self.current_mode),
            ),
        );
        out.push(FlighthookEvent::ready_state(true, true));
        assert(event_views(out@) =~= seq![
            connected(
                spec_telemetry(self.shot_count, self.current_mode).insert("shooting"@, "true"@),
            ),
            EventView::ReadyState { armed: false, ball_detected: false },
            EventView::Shot(shot@),
            connected(spec_telemetry(self.shot_count, self.current_mode)),
            EventView::ReadyState { armed: true, ball_detected: true },
        ]);
        out
    }
}

} // verus!
