//! The WebSocket protocol: the client's opening message, and its commands.

use crate::message::{EventView, FlighthookEvent};
use crate::text::str_eq;
use crate::units::ShotDetectionMode;
use vstd::prelude::*;
use vstd::string::*;

verus! {

/// The name under which a client is known after its opening message: its own name, or
/// `anonymous` where it gives none. A message of another type opens nothing.
pub open spec fn spec_start_name(msg_type: Seq<char>, name: Seq<char>) -> Option<Seq<char>> {
    if msg_type == "start"@ {
        Some(
            if name.len() == 0 {
                "anonymous"@
            } else {
                name
            },
        )
    } else {
        None
    }
}

/// Reads a client's opening message, of which `msg_type` is the type and `name` the name, and
/// returns the name under which the client is known.
pub fn parse_start_message(msg_type: &str, name: &str) -> (client: Option<String>)
    ensures
        match client {
            Some(n) => spec_start_name(msg_type@, name@) == Some(n@),
            None => spec_start_name(msg_type@, name@) is None,
        },
{
    if str_eq(msg_type, "start") {
        if name.unicode_len() == 0 {
            Some(String::from_str("anonymous"))
        } else {
            Some(String::from_str(name))
        }
    } else {
        None
    }
}

/// The client's address on the bus: `ws.` and its short id.
pub fn ws_source_id(short_id: &str) -> (id: String)
    ensures
        id@ == "ws."@ + short_id@,
{
    String::from_str("ws.").concat(short_id)
}

/// What a client's command puts on the bus: the command `mode` with the name of a mode sets
/// that mode; any other command, and any other name, puts nothing there.
pub open spec fn spec_ws_command(cmd: Seq<char>, mode: Option<Seq<char>>) -> Option<EventView> {
    if cmd == "mode"@ {
        match mode {
            Some(m) => match ShotDetectionMode::spec_from_name(m) {
                Some(mode) => Some(EventView::SetMode { mode }),
                None => None,
            },
            None => None,
        }
    } else {
        None
    }
}

/// Reads a client's command, of which `cmd` is the name and `mode` the mode it gives, and
/// returns what it puts on the bus.
pub fn handle_ws_command(cmd: &str, mode: Option<&str>) -> (event: Option<FlighthookEvent>)
    ensures
        match event {
            Some(e) => spec_ws_command(
                cmd@,
                match mode {
                    Some(m) => Some(m@),
                    None => None,
                },
            ) == Some(e@),
            None => spec_ws_command(
                cmd@,
                match mode {
                    Some(m) => Some(m@),
                    None => None,
                },
            ) is None,
        },
{
    if str_eq(cmd, "mode") {
        match mode {
            Some(m) => match ShotDetectionMode::from_name(m) {
                Some(mode) => Some(FlighthookEvent::set_mode(mode)),
                None => None,
            },
            None => None,
        }
    } else {
        None
    }
}

} // verus!
