//! From configuration to actors: which actors a configuration asks for, and what a running
//! actor has to do when the configuration changes.

use crate::actors::gspro::bridge::GsProRouting;
use crate::actors::mevo::settings::SessionConfig;
use crate::address::{lookup, spec_lookup, AddressBook, SocketAddress};
use crate::config::{FlighthookConfig, GsProSection, MevoSection};
use crate::message::{EventView, FlighthookEvent};
use crate::strmap::Duplicate;
use crate::text::{split_at_dot, split_once_dot, starts_with, str_eq, strip_prefix};
use crate::units::ShotDetectionMode;
use vstd::prelude::*;
use vstd::string::*;

verus! {

/// What a running actor has to do about a change of the configuration.
#[derive(Debug, Clone, Copy, PartialEq, Eq, Structural)]
pub enum ReconfigureOutcome {
    /// Nothing: its section says what it said before.
    NoChange,
    /// It takes the change over while it runs; the change has been announced on the bus.
    Applied,
    /// It has to be stopped and made anew.
    RestartRequired,
}

/// A device actor: the launch monitor's address and the settings of its sessions.
#[derive(Debug, Clone, Copy, PartialEq, Eq, Structural)]
pub struct MevoActor {
    pub addr: SocketAddress,
    pub initial_mode: ShotDetectionMode,
    pub session_config: SessionConfig,
}

/// A simulated launch monitor.
#[derive(Debug, Clone, Copy, PartialEq, Eq, Structural)]
pub struct MockLaunchActor {
    pub initial_mode: ShotDetectionMode,
}

/// A simulator bridge: the simulator's address and the routing of shots.
#[derive(Debug, Clone)]
pub struct GsProActor {
    pub addr: SocketAddress,
    pub routing: GsProRouting,
}

/// A simulated simulator.
#[derive(Debug, Clone, Copy, PartialEq, Eq, Structural)]
pub struct RandomClubActor;

/// A web server: the address it binds.
#[derive(Debug, Clone, Copy, PartialEq, Eq, Structural)]
pub struct WebActor {
    pub addr: SocketAddress,
}

/// An actor of any kind, as the configuration describes it.
#[derive(Debug, Clone)]
pub enum ActorSpec {
    Mevo(MevoActor),
    MockLaunch(MockLaunchActor),
    GsPro(GsProActor),
    RandomClub(RandomClubActor),
    Web(WebActor),
    /// The system actor, which always runs and which no section describes.
    System,
}

impl Duplicate for ActorSpec {
    fn duplicate(&self) -> (r: ActorSpec) {
        match self {
            ActorSpec::Mevo(a) => ActorSpec::Mevo(*a),
            ActorSpec::MockLaunch(a) => ActorSpec::MockLaunch(*a),
            ActorSpec::GsPro(a) => ActorSpec::GsPro(
                GsProActor { addr: a.addr, routing: a.routing.duplicate() },
            ),
            ActorSpec::RandomClub(a) => ActorSpec::RandomClub(*a),
            ActorSpec::Web(a) => ActorSpec::Web(*a),
            ActorSpec::System => ActorSpec::System,
        }
    }
}

/// An actor that the configuration asks for: its id, its display name, and what it is.
#[derive(Debug, Clone)]
pub struct ResolvedActor {
    pub id: String,
    pub name: String,
    pub actor: ActorSpec,
}

/// The address of a launch monitor whose section names none.
pub open spec fn default_mevo_address() -> Seq<char> {
    "192.168.2.1:5100"@
}

/// The address of a simulator whose section names none.
pub open spec fn default_gspro_address() -> Seq<char> {
    "127.0.0.1:921"@
}

/// The text of an address: the section's own, or the default.
pub open spec fn address_text(address: Option<String>, fallback: Seq<char>) -> Seq<char> {
    match address {
        Some(a) => a@,
        None => fallback,
    }
}

/// The device actor that a section asks for, where its address can be read.
pub open spec fn spec_mevo_actor(s: MevoSection, book: Map<Seq<char>, SocketAddress>) -> Option<
    ActorSpec,
> {
    match spec_lookup(book, address_text(s.address, default_mevo_address())) {
        Some(addr) => Some(
            ActorSpec::Mevo(
                MevoActor {
                    addr,
                    initial_mode: ShotDetectionMode::Full,
                    session_config: SessionConfig::spec_from_mevo_section(s),
                },
            ),
        ),
        None => None,
    }
}

/// The simulator bridge that a section asks for, where its address can be read.
pub open spec fn spec_gspro_actor(s: GsProSection, book: Map<Seq<char>, SocketAddress>) -> Option<
    ActorSpec,
> {
    match spec_lookup(book, address_text(s.address, default_gspro_address())) {
        Some(addr) => Some(
            ActorSpec::GsPro(
                GsProActor {
                    addr,
                    routing: GsProRouting {
                        full_monitor: s.full_monitor,
                        chipping_monitor: s.chipping_monitor,
                        putting_monitor: s.putting_monitor,
                    },
                },
            ),
        ),
        None => None,
    }
}

/// The actor that the configuration asks for under the kind `kind` and the index `index`:
/// none where there is no such section, or where the section's address cannot be read.
pub open spec fn spec_actor_for(
    config: &FlighthookConfig,
    book: Map<Seq<char>, SocketAddress>,
    kind: Seq<char>,
    index: Seq<char>,
) -> Option<ActorSpec> {
    if kind == "mevo"@ {
        if config.mevo@.contains_key(index) {
            spec_mevo_actor(config.mevo@[index], book)
        } else {
            None
        }
    } else if kind == "mock_monitor"@ {
        if config.mock_monitor@.contains_key(index) {
            Some(ActorSpec::MockLaunch(MockLaunchActor { initial_mode: ShotDetectionMode::Full }))
        } else {
            None
        }
    } else if kind == "gspro"@ {
        if config.gspro@.contains_key(index) {
            spec_gspro_actor(config.gspro@[index], book)
        } else {
            None
        }
    } else if kind == "random_club"@ {
        if config.random_club@.contains_key(index) {
            Some(ActorSpec::RandomClub(RandomClubActor))
        } else {
            None
        }
    } else if kind == "webserver"@ {
        if config.webserver@.contains_key(index) {
            match spec_lookup(book, config.webserver@[index].bind@) {
                Some(addr) => Some(ActorSpec::Web(WebActor { addr })),
                None => None,
            }
        } else {
            None
        }
    } else {
        None
    }
}

/// The display name that the configuration gives under the kind `kind` and the index `index`.
pub open spec fn spec_name_for(config: &FlighthookConfig, kind: Seq<char>, index: Seq<char>) -> Seq<
    char,
> {
    if kind == "mevo"@ && config.mevo@.contains_key(index) {
        config.mevo@[index].name@
    } else if kind == "mock_monitor"@ && config.mock_monitor@.contains_key(index) {
        config.mock_monitor@[index].name@
    } else if kind == "gspro"@ && config.gspro@.contains_key(index) {
        config.gspro@[index].name@
    } else if kind == "random_club"@ && config.random_club@.contains_key(index) {
        config.random_club@[index].name@
    } else if kind == "webserver"@ && config.webserver@.contains_key(index) {
        config.webserver@[index].name@
    } else {
        Seq::empty()
    }
}

/// The actor that the configuration asks for under the id `id`. An id is a kind, a dot and an
/// index; the kind ends at the first dot.
pub open spec fn spec_expected(
    config: &FlighthookConfig,
    book: Map<Seq<char>, SocketAddress>,
    id: Seq<char>,
) -> Option<ActorSpec> {
    match split_at_dot(id) {
        Some((kind, index)) => spec_actor_for(config, book, kind, index),
        None => None,
    }
}

fn address_of<'a>(address: &'a Option<String>, fallback: &'a str) -> (text: &'a str)
    ensures
        text@ == address_text(*address, fallback@),
{
    match address {
        Some(a) => a.as_str(),
        None => fallback,
    }
}

/// The address text of a launch monitor's section: its own, or `192.168.2.1:5100` where it
/// names none.
pub fn mevo_address(s: &MevoSection) -> (text: &str)
    ensures
        text@ == address_text(s.address, default_mevo_address()),
{
    address_of(&s.address, "192.168.2.1:5100")
}

/// The address text of a simulator bridge's section: its own, or `127.0.0.1:921` where it
/// names none.
pub fn gspro_address(s: &GsProSection) -> (text: &str)
    ensures
        text@ == address_text(s.address, default_gspro_address()),
{
    address_of(&s.address, "127.0.0.1:921")
}

fn mevo_actor(s: &MevoSection, book: &AddressBook) -> (r: Option<ActorSpec>)
    ensures
        r == spec_mevo_actor(*s, book@),
{
    match lookup(book, mevo_address(s)) {
        Some(addr) => Some(
            ActorSpec::Mevo(
                MevoActor {
                    addr,
                    initial_mode: ShotDetectionMode::Full,
                    session_config: SessionConfig::from_mevo_section(s),
                },
            ),
        ),
        None => None,
    }
}

fn gspro_actor(s: &GsProSection, book: &AddressBook) -> (r: Option<ActorSpec>)
    ensures
        r == spec_gspro_actor(*s, book@),
{
    match lookup(book, gspro_address(s)) {
        Some(addr) => Some(
            ActorSpec::GsPro(
                GsProActor {
                    addr,
                    routing: GsProRouting {
                        full_monitor: s.full_monitor.duplicate(),
                        chipping_monitor: s.chipping_monitor.duplicate(),
                        putting_monitor: s.putting_monitor.duplicate(),
                    },
                },
            ),
        ),
        None => None,
    }
}

/// Finds the actor that the configuration asks for under the kind `kind` and the index
/// `index`.
pub fn actor_for(config: &FlighthookConfig, book: &AddressBook, kind: &str, index: &str) -> (r:
    Option<ActorSpec>)
    ensures
        r == spec_actor_for(config, book@, kind@, index@),
{
    if str_eq(kind, "mevo") {
        match config.mevo.get(index) {
            Some(s) => mevo_actor(s, book),
            None => None,
        }
    } else if str_eq(kind, "mock_monitor") {
        if config.mock_monitor.contains_key(index) {
            Some(ActorSpec::MockLaunch(MockLaunchActor { initial_mode: ShotDetectionMode::Full }))
        } else {
            None
        }
    } else if str_eq(kind, "gspro") {
        match config.gspro.get(index) {
            Some(s) => gspro_actor(s, book),
            None => None,
        }
    } else if str_eq(kind, "random_club") {
        if config.random_club.contains_key(index) {
            Some(ActorSpec::RandomClub(RandomClubActor))
        } else {
            None
        }
    } else if str_eq(kind, "webserver") {
        match config.webserver.get(index) {
            Some(s) => match lookup(book, s.bind.as_str()) {
                Some(addr) => Some(ActorSpec::Web(WebActor { addr })),
                None => None,
            },
            None => None,
        }
    } else {
        None
    }
}

/// Finds the actor that the configuration asks for under the id `id`.
pub fn expected_actor(config: &FlighthookConfig, book: &AddressBook, id: &str) -> (r: Option<
    ActorSpec,
>)
    ensures
        r == spec_expected(config, book@, id@),
{
    match split_once_dot(id) {
        Some((kind, index)) => actor_for(config, book, kind.as_str(), index.as_str()),
        None => None,
    }
}

/// What a running device actor has to do about the configuration. Without its section, or
/// with another address, or with an address that cannot be read, it has to be restarted. With
/// its address unchanged it takes the section's settings over while it runs, and announces
/// them. An id without a dot names no section, and nothing is done.
pub open spec fn spec_reconfigure_mevo(
    actor: MevoActor,
    id: Seq<char>,
    config: &FlighthookConfig,
    book: Map<Seq<char>, SocketAddress>,
) -> ReconfigureOutcome {
    match split_at_dot(id) {
        None => ReconfigureOutcome::NoChange,
        Some((_, index)) => if !config.mevo@.contains_key(index) {
            ReconfigureOutcome::RestartRequired
        } else {
            let s = config.mevo@[index];
            match spec_lookup(book, address_text(s.address, default_mevo_address())) {
                None => ReconfigureOutcome::RestartRequired,
                Some(addr) => if addr != actor.addr {
                    ReconfigureOutcome::RestartRequired
                } else {
                    ReconfigureOutcome::Applied
                },
            }
        },
    }
}

/// A device actor whose section still names the address it runs on is never restarted: it
/// takes the section's settings over and announces them, whatever they are.
pub proof fn lemma_unchanged_address_applies(
    actor: MevoActor,
    id: Seq<char>,
    config: &FlighthookConfig,
    book: Map<Seq<char>, SocketAddress>,
)
    requires
        split_at_dot(id) is Some,
        config.mevo@.contains_key(split_at_dot(id)->Some_0.1),
        spec_lookup(
            book,
            address_text(
                config.mevo@[split_at_dot(id)->Some_0.1].address,
                default_mevo_address(),
            ),
        ) == Some(actor.addr),
    ensures
        spec_reconfigure_mevo(actor, id, config, book) == ReconfigureOutcome::Applied,
        spec_announcement(ActorSpec::Mevo(actor), id, config) == EventView::ConfigChanged(
            SessionConfig::spec_from_mevo_section(
                config.mevo@[split_at_dot(id)->Some_0.1],
            ).spec_to_config_event(),
        ),
{
}

/// What a running simulator bridge has to do about the configuration: it has to be restarted
/// where its section is gone, where its address has changed or cannot be read, or where the
/// routing has changed for any mode.
pub open spec fn spec_reconfigure_gspro(
    actor: GsProActor,
    id: Seq<char>,
    config: &FlighthookConfig,
    book: Map<Seq<char>, SocketAddress>,
) -> ReconfigureOutcome {
    match split_at_dot(id) {
        None => ReconfigureOutcome::NoChange,
        Some((_, index)) => if !config.gspro@.contains_key(index) {
            ReconfigureOutcome::RestartRequired
        } else {
            let s = config.gspro@[index];
            match spec_lookup(book, address_text(s.address, default_gspro_address())) {
                None => ReconfigureOutcome::RestartRequired,
                Some(addr) => if addr != actor.addr || !actor.routing.same_routing(
                    &GsProRouting {
                        full_monitor: s.full_monitor,
                        chipping_monitor: s.chipping_monitor,
                        putting_monitor: s.putting_monitor,
                    },
                ) {
                    ReconfigureOutcome::RestartRequired
                } else {
                    ReconfigureOutcome::NoChange
                },
            }
        },
    }
}

/// The index of a web server: what follows `webserver.` in its id, or `0` for any other id.
pub open spec fn web_index(id: Seq<char>) -> Seq<char> {
    if starts_with(id, "webserver."@) {
        id.skip("webserver."@.len() as int)
    } else {
        "0"@
    }
}

/// What a running web server has to do about the configuration: nothing where its section
/// still binds the address it runs on, else it has to be restarted.
pub open spec fn spec_reconfigure_web(
    actor: WebActor,
    id: Seq<char>,
    config: &FlighthookConfig,
    book: Map<Seq<char>, SocketAddress>,
) -> ReconfigureOutcome {
    if config.webserver@.contains_key(web_index(id)) && spec_lookup(
        book,
        config.webserver@[web_index(id)].bind@,
    ) == Some(actor.addr) {
        ReconfigureOutcome::NoChange
    } else {
        ReconfigureOutcome::RestartRequired
    }
}

/// What a running actor has to do about the configuration. The simulated actors and the
/// system actor never have to do anything.
pub open spec fn spec_reconfigure(
    actor: ActorSpec,
    id: Seq<char>,
    config: &FlighthookConfig,
    book: Map<Seq<char>, SocketAddress>,
) -> ReconfigureOutcome {
    match actor {
        ActorSpec::Mevo(a) => spec_reconfigure_mevo(a, id, config, book),
        ActorSpec::GsPro(a) => spec_reconfigure_gspro(a, id, config, book),
        ActorSpec::Web(a) => spec_reconfigure_web(a, id, config, book),
        _ => ReconfigureOutcome::NoChange,
    }
}

/// The settings that a device actor announces when it takes a change over.
pub open spec fn spec_announcement(
    actor: ActorSpec,
    id: Seq<char>,
    config: &FlighthookConfig,
) -> EventView {
    EventView::ConfigChanged(
        SessionConfig::spec_from_mevo_section(
            config.mevo@[split_at_dot(id)->Some_0.1],
        ).spec_to_config_event(),
    )
}

/// What came of asking an actor about a change: what it has to do, and what it announces on
/// the bus where it takes the change over.
#[derive(Debug, Clone)]
pub struct Reconfigured {
    pub outcome: ReconfigureOutcome,
    pub announce: Option<FlighthookEvent>,
}

impl MevoActor {
    /// Decides what the actor with the id `actor_id` has to do about `config`.
    pub fn reconfigure(&self, actor_id: &str, config: &FlighthookConfig, book: &AddressBook) -> (r:
        Reconfigured)
        ensures
            r.outcome == spec_reconfigure_mevo(*self, actor_id@, config, book@),
            r.outcome == ReconfigureOutcome::Applied <==> r.announce is Some,
            r.announce matches Some(e) ==> e@ == spec_announcement(
                ActorSpec::Mevo(*self),
                actor_id@,
                config,
            ),
    {
        let index = match split_once_dot(actor_id) {
            Some((_, index)) => index,
            None => {
                return Reconfigured { outcome: ReconfigureOutcome::NoChange, announce: None };
            },
        };
        let section = match config.mevo.get(index.as_str()) {
            Some(s) => s,
            None => {
                return Reconfigured {
                    outcome: ReconfigureOutcome::RestartRequired,
                    announce: None,
                };
            },
        };
        match lookup(book, mevo_address(section)) {
            Some(addr) => {
                if addr != self.addr {
                    return Reconfigured {
                        outcome: ReconfigureOutcome::RestartRequired,
                        announce: None,
                    };
                }
            },
            None => {
                return Reconfigured {
                    outcome: ReconfigureOutcome::RestartRequired,
                    announce: None,
                };
            },
        }
        let new_session = SessionConfig::from_mevo_section(section);
        Reconfigured {
            outcome: ReconfigureOutcome::Applied,
            announce: Some(FlighthookEvent::config_changed(new_session.to_config_event())),
        }
    }
}

impl GsProActor {
    /// Decides what the actor with the id `actor_id` has to do about `config`.
    pub fn reconfigure(&self, actor_id: &str, config: &FlighthookConfig, book: &AddressBook) -> (r:
        ReconfigureOutcome)
        ensures
            r == spec_reconfigure_gspro(*self, actor_id@, config, book@),
    {
        let index = match split_once_dot(actor_id) {
            Some((_, index)) => index,
            None => {
                return ReconfigureOutcome::NoChange;
            },
        };
        let section = match config.gspro.get(index.as_str()) {
            Some(s) => s,
            None => {
                return ReconfigureOutcome::RestartRequired;
            },
        };
        match lookup(book, gspro_address(section)) {
            Some(addr) => {
                if addr != self.addr {
                    return ReconfigureOutcome::RestartRequired;
                }
            },
            None => {
                return ReconfigureOutcome::RestartRequired;
            },
        }
        if !crate::actors::gspro::bridge::same_id(&section.full_monitor, &self.routing.full_monitor)
            || !crate::actors::gspro::bridge::same_id(
            &section.chipping_monitor,
            &self.routing.chipping_monitor,
        ) || !crate::actors::gspro::bridge::same_id(
            &section.putting_monitor,
            &self.routing.putting_monitor,
        ) {
            return ReconfigureOutcome::RestartRequired;
        }
        ReconfigureOutcome::NoChange
    }
}

impl WebActor {
    /// Decides what the actor with the id `actor_id` has to do about `config`.
    pub fn reconfigure(&self, actor_id: &str, config: &FlighthookConfig, book: &AddressBook) -> (r:
        ReconfigureOutcome)
        ensures
            r == spec_reconfigure_web(*self, actor_id@, config, book@),
    {
        let index = match strip_prefix(actor_id, "webserver.") {
            Some(rest) => rest,
            None => String::from_str("0"),
        };
        match config.webserver.get(index.as_str()) {
            Some(section) => match lookup(book, section.bind.as_str()) {
                Some(addr) => {
                    if addr == self.addr {
                        ReconfigureOutcome::NoChange
                    } else {
                        ReconfigureOutcome::RestartRequired
                    }
                },
                None => ReconfigureOutcome::RestartRequired,
            },
            None => ReconfigureOutcome::RestartRequired,
        }
    }
}

impl ActorSpec {
    /// Decides what the running actor with the id `actor_id` has to do about `config`.
    pub fn reconfigure(&self, actor_id: &str, config: &FlighthookConfig, book: &AddressBook) -> (r:
        Reconfigured)
        ensures
            r.outcome == spec_reconfigure(*self, actor_id@, config, book@),
            r.outcome == ReconfigureOutcome::Applied <==> r.announce is Some,
            r.announce matches Some(e) ==> e@ == spec_announcement(*self, actor_id@, config),
    {
        match self {
            ActorSpec::Mevo(a) => a.reconfigure(actor_id, config, book),
            ActorSpec::GsPro(a) => Reconfigured {
                outcome: a.reconfigure(actor_id, config, book),
                announce: None,
            },
            ActorSpec::Web(a) => Reconfigured {
                outcome: a.reconfigure(actor_id, config, book),
                announce: None,
            },
            _ => Reconfigured { outcome: ReconfigureOutcome::NoChange, announce: None },
        }
    }
}

} // verus!
