//! What the simulator's answers, and the end of a connection to it, mean for the bus.

use crate::actors::gspro::api::GsProResponse;
use crate::event::{new_telemetry, no_telemetry, ActorStatus};
use crate::game_state::Club;
use crate::message::{event_views, AlertLevel, EventView, FlighthookEvent};
use crate::text::{i64_to_decimal, signed_decimal};
use vstd::prelude::*;
use vstd::string::*;

verus! {

/// An answer's code says that all is well: it lies from 200 up to, and not including, 300.
pub open spec fn spec_is_success(code: i32) -> bool {
    200 <= code < 300
}

/// The warning for an answer whose code says that something is wrong.
pub open spec fn rejection_text(code: i32, message: Seq<char>) -> Seq<char> {
    "GSPro returned "@ + signed_decimal(code as int) + ": "@ + message
}

/// The warning for a club code that names no club.
pub open spec fn unknown_club_text(code: Seq<char>) -> Seq<char> {
    "GSPro: unknown club code '"@ + code + "'"@
}

/// The warning for bytes in which no answer could be read.
pub open spec fn parse_failure_text(error: Seq<char>) -> Seq<char> {
    "Could not parse GSPro response: "@ + error
}

/// A warning with the given text.
pub open spec fn warn(message: Seq<char>) -> EventView {
    EventView::Alert { level: AlertLevel::Warn, message }
}

/// What one answer puts on the bus: a warning unless its code says that all is well; the
/// player's handedness where the answer gives it; the player's club where the answer gives a
/// code that names one, and a warning where the code names none.
pub open spec fn response_events(r: GsProResponse) -> Seq<EventView> {
    (if spec_is_success(r.code) {
        Seq::<EventView>::empty()
    } else {
        seq![warn(rejection_text(r.code, r.message@))]
    }) + (match r.player {
        Some(p) => (match p.handed {
            Some(h) => seq![EventView::SetPlayerInfo { handed: h@ }],
            None => Seq::<EventView>::empty(),
        }) + (match p.club {
            Some(c) => match Club::spec_from_code(c@) {
                Some(club) => seq![EventView::SetClubInfo { club }],
                None => seq![warn(unknown_club_text(c@))],
            },
            None => Seq::<EventView>::empty(),
        }),
        None => Seq::<EventView>::empty(),
    })
}

/// What the first `n` answers put on the bus, in order.
pub open spec fn responses_events(responses: Seq<GsProResponse>, n: int) -> Seq<EventView>
    decreases n,
{
    if n <= 0 {
        Seq::<EventView>::empty()
    } else {
        responses_events(responses, n - 1) + response_events(responses[n - 1])
    }
}

/// What a read from the simulator puts on the bus: the events of every answer that was read,
/// and a warning where reading failed before any answer was read. A failure after the first
/// answer is passed over in silence.
pub open spec fn spec_handle_response(
    responses: Seq<GsProResponse>,
    parse_error: Option<Seq<char>>,
) -> Seq<EventView> {
    responses_events(responses, responses.len() as int) + (match parse_error {
        Some(e) => if responses.len() == 0 {
            seq![warn(parse_failure_text(e))]
        } else {
            Seq::<EventView>::empty()
        },
        None => Seq::<EventView>::empty(),
    })
}

fn push_event(out: &mut Vec<FlighthookEvent>, event: FlighthookEvent)
    ensures
        event_views(final(out)@) == event_views(old(out)@).push(event@),
{
    out.push(event);
    assert(event_views(out@) =~= event_views(old(out)@).push(event@));
}

fn push_warn(out: &mut Vec<FlighthookEvent>, message: String)
    ensures
        event_views(final(out)@) == event_views(old(out)@).push(warn(message@)),
{
    push_event(out, FlighthookEvent::alert(AlertLevel::Warn, message));
}

fn handle_one(out: &mut Vec<FlighthookEvent>, r: &GsProResponse)
    ensures
        event_views(final(out)@) == event_views(old(out)@) + response_events(*r),
{
    if !(r.code >= 200 && r.code < 300) {
        let code = i64_to_decimal(r.code as i64);
        let text = String::from_str("GSPro returned ").concat(code.as_str()).concat(": ").concat(
            r.message.as_str(),
        );
        push_warn(out, text);
    }
    match &r.player {
        Some(player) => {
            match &player.handed {
                Some(handed) => {
                    push_event(out, FlighthookEvent::set_player(handed.clone()));
                },
                None => {},
            }
            match &player.club {
                Some(code) => {
                    match Club::from_code(code.as_str()) {
                        Some(club) => {
                            push_event(out, FlighthookEvent::set_club(club));
                        },
                        None => {
                            let text = String::from_str("GSPro: unknown club code '").concat(
                                code.as_str(),
                            ).concat("'");
                            push_warn(out, text);
                        },
                    }
                },
                None => {},
            }
        },
        None => {},
    }
    assert(event_views(out@) =~= event_views(old(out)@) + response_events(*r));
}

/// Turns what was read from the simulator into events for the bus. `responses` holds the
/// answers that could be read, in order; `parse_error` holds the reader's message where it
/// stopped at something that is no answer.
pub fn handle_response(responses: &Vec<GsProResponse>, parse_error: Option<&str>) -> (out: Vec<
    FlighthookEvent,
>)
    ensures
        event_views(out@) == spec_handle_response(
            responses@,
            match parse_error {
                Some(e) => Some(e@),
                None => None,
            },
        ),
{
    let mut out: Vec<FlighthookEvent> = Vec::new();
    assert(event_views(out@) =~= Seq::<EventView>::empty());
    let mut i: usize = 0;
    while i < responses.len()
        invariant
            i <= responses@.len(),
            event_views(out@) == responses_events(responses@, i as int),
        decreases responses@.len() - i,
    {
        handle_one(&mut out, &responses[i]);
        i = i + 1;
    }
    match parse_error {
        Some(e) => {
            if responses.len() == 0 {
                let text = String::from_str("Could not parse GSPro response: ").concat(e);
                push_warn(&mut out, text);
            }
        },
        None => {},
    }
    assert(event_views(out@) =~= spec_handle_response(
        responses@,
        match parse_error {
            Some(e) => Some(e@),
            None => None,
        },
    ));
    out
}

/// How a connection to the simulator came to its end.
#[derive(Debug, Clone)]
pub enum StreamEnd {
    /// The simulator closed the connection, as it may.
    Closed,
    /// Reading from the simulator failed, with the system's message.
    ReadFailed(String),
    /// Connecting or writing failed, with the system's message.
    Failed(String),
}

/// An error alert that says that the connection to the simulator has failed.
pub open spec fn connection_failed(text: Seq<char>) -> EventView {
    EventView::Alert {
        level: AlertLevel::Error,
        message: "GSPro connection failed: I/O error: "@ + text,
    }
}

/// The status of a bridge that is about to connect again.
pub open spec fn reconnecting() -> EventView {
    EventView::ActorStatus { status: ActorStatus::Reconnecting, telemetry: no_telemetry() }
}

/// What the end of a connection puts on the bus. Where the simulator closed the connection:
/// a warning, and the status `Reconnecting`. Where reading failed: a warning, an error alert,
/// and the status. Where connecting or writing failed: an error alert and the status. The
/// error alert is for ends that are no close by the simulator.
pub open spec fn stream_end_events(end: StreamEnd) -> Seq<EventView> {
    match end {
        StreamEnd::Closed => seq![warn("GSPro closed the connection"@), reconnecting()],
        StreamEnd::ReadFailed(e) => seq![
            warn("GSPro read error: "@ + e@),
            connection_failed(e@),
            reconnecting(),
        ],
        StreamEnd::Failed(e) => seq![connection_failed(e@), reconnecting()],
    }
}

fn push_failed(out: &mut Vec<FlighthookEvent>, reason: &str)
    ensures
        event_views(final(out)@) == event_views(old(out)@).push(connection_failed(reason@)),
{
    let text = String::from_str("GSPro connection failed: I/O error: ").concat(reason);
    push_event(out, FlighthookEvent::alert(AlertLevel::Error, text));
}

/// Says what to publish when a connection to the simulator has come to its end and the
/// bridge is about to wait and connect again. No shot is kept for the next connection.
pub fn on_stream_end(end: &StreamEnd) -> (out: Vec<FlighthookEvent>)
    ensures
        event_views(out@) == stream_end_events(*end),
{
    let mut out: Vec<FlighthookEvent> = Vec::new();
    assert(event_views(out@) =~= Seq::<EventView>::empty());
    match end {
        StreamEnd::Closed => {
            push_warn(&mut out, String::from_str("GSPro closed the connection"));
        },
        StreamEnd::ReadFailed(e) => {
            push_warn(&mut out, String::from_str("GSPro read error: ").concat(e.as_str()));
            push_failed(&mut out, e.as_str());
        },
        StreamEnd::Failed(e) => {
            push_failed(&mut out, e.as_str());
        },
    }
    push_event(&mut out, FlighthookEvent::status(ActorStatus::Reconnecting, new_telemetry()));
    assert(event_views(out@) =~= stream_end_events(*end));
    out
}

/// What a bridge publishes once it is connected: the status `Connected`, without telemetry.
pub fn on_connected() -> (out: Vec<FlighthookEvent>)
    ensures
        event_views(out@) == seq![
            EventView::ActorStatus { status: ActorStatus::Connected, telemetry: no_telemetry() },
        ],
{
    let mut out: Vec<FlighthookEvent> = Vec::new();
    out.push(FlighthookEvent::status(ActorStatus::Connected, new_telemetry()));
    assert(event_views(out@) =~= seq![
        EventView::ActorStatus { status: ActorStatus::Connected, telemetry: no_telemetry() },
    ]);
    out
}

} // verus!
