//! What the REST endpoints ask for, and how their requests are read.

use crate::api::PostSettingsResponse;
use crate::config::FlighthookConfig;
use crate::message::{ConfigAction, ConfigCommand, FlighthookEvent, FlighthookMessage};
use crate::strmap::duplicate_list;
use crate::text::str_eq;
use crate::units::{ShotDetectionMode, UnitSystem};
use vstd::prelude::*;
use vstd::string::*;

verus! {

/// What a request for shots asks for: how many, and in which units.
#[derive(Debug, Clone)]
pub struct ShotsQuery {
    pub limit: usize,
    pub units: Option<String>,
}

/// What a request for a conversion asks for: the units to convert to.
#[derive(Debug, Clone)]
pub struct ConvertQuery {
    pub units: String,
}

/// How many shots a request gets that names no number.
pub fn default_limit() -> (limit: usize)
    ensures
        limit == 50,
{
    50
}

/// The units that a request for shots asks for: those that it names, where it names units
/// that there are; none else, and the shots are then given as they are.
pub fn requested_units(query: &ShotsQuery) -> (units: Option<UnitSystem>)
    ensures
        units == (match query.units {
            Some(name) => UnitSystem::spec_from_name(name@),
            None => None,
        }),
{
    match &query.units {
        Some(name) => UnitSystem::from_name(name.as_str()),
        None => None,
    }
}

/// The units that a request for a conversion asks for. `None` says that the request is bad:
/// it names units that there are not.
pub fn conversion_units(query: &ConvertQuery) -> (units: Option<UnitSystem>)
    ensures
        units == UnitSystem::spec_from_name(query.units@),
{
    UnitSystem::from_name(query.units.as_str())
}

/// The source under which the REST endpoints put their messages on the bus.
pub open spec fn web_source() -> Seq<char> {
    "web"@
}

/// The message by which the mode endpoint sets the detection mode.
pub fn mode_message(mode: ShotDetectionMode) -> (m: FlighthookMessage)
    ensures
        m.source@ == web_source(),
        m.raw_payload is None,
        m.event@ == (crate::message::EventView::SetMode { mode }),
{
    FlighthookMessage::new(FlighthookEvent::set_mode(mode)).source(String::from_str("web"))
}

/// The message by which the settings endpoint asks for the whole configuration to be
/// replaced. The outcome is announced under `request_id`.
pub fn replace_message(request_id: &str, config: FlighthookConfig) -> (m: FlighthookMessage)
    ensures
        m.source@ == web_source(),
        m.raw_payload is None,
        m.event matches FlighthookEvent::ConfigCommand(c) && (c.request_id matches Some(id) && id@
            == request_id@) && c.action == (ConfigAction::ReplaceAll { config }),
{
    let command = ConfigCommand {
        request_id: Some(String::from_str(request_id)),
        action: ConfigAction::ReplaceAll { config },
    };
    FlighthookMessage::new(FlighthookEvent::ConfigCommand(command)).source(String::from_str("web"))
}

/// The event answers the request `request_id`: it is the outcome of a change of the
/// configuration that was asked for under that id.
pub open spec fn answers(event: FlighthookEvent, request_id: Seq<char>) -> bool {
    event matches FlighthookEvent::ConfigOutcome(o) && o.request_id@ == request_id
}

/// Reads an event of the bus on behalf of a settings request that waits for its outcome.
/// The outcome under the request's id gives the answer: the actors that were restarted and
/// those that were stopped. Any other event gives none, and the request waits on.
pub fn settings_reply(event: &FlighthookEvent, request_id: &str) -> (reply: Option<
    PostSettingsResponse,
>)
    ensures
        reply is Some <==> answers(*event, request_id@),
        reply matches Some(r) ==> (event matches FlighthookEvent::ConfigOutcome(o) && r.restarted@
            == o.restarted@ && r.stopped@ == o.stopped@),
{
    match event {
        FlighthookEvent::ConfigOutcome(o) => {
            if str_eq(o.request_id.as_str(), request_id) {
                Some(
                    PostSettingsResponse {
                        restarted: duplicate_list(&o.restarted),
                        stopped: duplicate_list(&o.stopped),
                    },
                )
            } else {
                None
            }
        },
        _ => None,
    }
}

/// The answer to a settings request whose outcome did not come in time: nothing restarted,
/// nothing stopped. The caller cannot tell it from a change that touched no actor.
pub fn settings_timeout() -> (reply: PostSettingsResponse)
    ensures
        reply.restarted@.len() == 0,
        reply.stopped@.len() == 0,
{
    PostSettingsResponse { restarted: Vec::new(), stopped: Vec::new() }
}

} // verus!
