//! The decisions of the system actor: the only writer of the game state, and the one place
//! where the configuration changes.

use crate::actors::reload::{
    spec_change, spec_running_after, system_id, Change, ConfigReloadOutcome,
};
use crate::actors::resolve::{spec_expected, ActorSpec};
use crate::address::SocketAddress;
use crate::config::{spec_global_id, FlighthookConfig};
use crate::game_state::{ClubInfo, GameState, GameStateSnapshot, GameStateWriter};
use crate::message::{
    id_texts, ConfigAction, ConfigOutcome, EventView, FlighthookEvent, FlighthookMessage,
    GameStateCommandEvent,
};
use crate::strmap::duplicate_list;
use crate::text::{split_at_dot, split_once_dot, str_eq};
use vstd::prelude::*;
use vstd::string::*;

verus! {

/// The game state after a command. A club selection also sets the detection mode that goes
/// with the club.
pub open spec fn spec_game_after(
    before: GameStateSnapshot,
    command: GameStateCommandEvent,
) -> GameStateSnapshot {
    match command {
        GameStateCommandEvent::SetPlayerInfo { player_info } => GameStateSnapshot {
            player_info: Some(player_info),
            ..before
        },
        GameStateCommandEvent::SetClubInfo { club_info } => GameStateSnapshot {
            club_info: Some(club_info),
            mode: Some(club_info.club.spec_mode()),
            ..before
        },
        GameStateCommandEvent::SetMode { mode } => GameStateSnapshot {
            mode: Some(mode),
            ..before
        },
    }
}

/// What the system actor publishes after a command: the detection mode that goes with the
/// club, after a club selection, and nothing after any other command.
pub open spec fn spec_game_publish(command: GameStateCommandEvent) -> Option<EventView> {
    match command {
        GameStateCommandEvent::SetClubInfo { club_info } => Some(
            EventView::SetMode { mode: club_info.club.spec_mode() },
        ),
        _ => None,
    }
}

/// Applies a command to the game state and says what to publish.
pub fn apply_game_command(
    writer: &GameStateWriter,
    game: &mut GameState,
    command: &GameStateCommandEvent,
) -> (publish: Option<FlighthookEvent>)
    ensures
        final(game)@ == spec_game_after(old(game)@, *command),
        match publish {
            Some(e) => spec_game_publish(*command) == Some(e@),
            None => spec_game_publish(*command) is None,
        },
{
    match command {
        GameStateCommandEvent::SetPlayerInfo { player_info } => {
            writer.set_player_info(game, player_info.duplicate());
            None
        },
        GameStateCommandEvent::SetClubInfo { club_info } => {
            writer.set_club_info(game, *club_info);
            let mode = club_info.club.mode();
            writer.set_mode(game, mode);
            Some(FlighthookEvent::set_mode(mode))
        },
        GameStateCommandEvent::SetMode { mode } => {
            writer.set_mode(game, *mode);
            None
        },
    }
}

/// The game state after a message of the bus: a command is applied, and any other message
/// leaves the state as it is. The sender of the message plays no part.
pub open spec fn spec_game_after_message(
    before: GameStateSnapshot,
    message: FlighthookMessage,
) -> GameStateSnapshot {
    match message.event {
        FlighthookEvent::GameStateCommand(command) => spec_game_after(before, command.event),
        _ => before,
    }
}

/// Takes in a message of the bus on behalf of the game state, whoever sent it.
pub fn on_game_message(writer: &GameStateWriter, game: &mut GameState, message: &FlighthookMessage)
    -> (publish: Option<FlighthookEvent>)
    ensures
        final(game)@ == spec_game_after_message(old(game)@, *message),
        match message.event {
            FlighthookEvent::GameStateCommand(command) => match publish {
                Some(e) => spec_game_publish(command.event) == Some(e@),
                None => spec_game_publish(command.event) is None,
            },
            _ => publish is None,
        },
{
    match &message.event {
        FlighthookEvent::GameStateCommand(command) => apply_game_command(
            writer,
            game,
            &command.event,
        ),
        _ => None,
    }
}

/// The game state after a command is the same whoever sent the command.
pub proof fn lemma_game_state_ignores_source(
    before: GameStateSnapshot,
    first: FlighthookMessage,
    second: FlighthookMessage,
)
    requires
        first.event == second.event,
    ensures
        spec_game_after_message(before, first) == spec_game_after_message(before, second),
{
}

/// After a club selection the state holds the club and the mode that goes with it: putting
/// for the putter, chipping for the gap, sand and lob wedges, full for any other club.
pub proof fn lemma_club_sets_mode(before: GameStateSnapshot, club_info: ClubInfo)
    ensures
        spec_game_after(before, GameStateCommandEvent::SetClubInfo { club_info }).club_info
            == Some(club_info),
        spec_game_after(before, GameStateCommandEvent::SetClubInfo { club_info }).mode == Some(
            club_info.club.spec_mode(),
        ),
        spec_game_publish(GameStateCommandEvent::SetClubInfo { club_info }) == Some(
            EventView::SetMode { mode: club_info.club.spec_mode() },
        ),
{
}

/// Which actors a change of the configuration concerns.
#[derive(Debug, Clone)]
pub enum ConfigScope {
    /// All of them: the whole configuration was replaced.
    All,
    /// The actor with this id: one section was put in or taken out.
    One(String),
    /// None: the change was not understood, and nothing was done.
    Rejected,
}

/// The scope of an action, with its id as plain text.
pub enum ScopeView {
    All,
    One(Seq<char>),
    Rejected,
}

impl View for ConfigScope {
    type V = ScopeView;

    open spec fn view(&self) -> ScopeView {
        match *self {
            ConfigScope::All => ScopeView::All,
            ConfigScope::One(id) => ScopeView::One(id@),
            ConfigScope::Rejected => ScopeView::Rejected,
        }
    }
}

/// Which actors an action concerns. Putting a section in concerns the actor of that section.
/// Taking a section out concerns the actor of the id that is given, whatever its kind, and is
/// rejected where the id holds no dot.
pub open spec fn spec_scope(action: ConfigAction) -> ScopeView {
    match action {
        ConfigAction::ReplaceAll { .. } => ScopeView::All,
        ConfigAction::UpsertWebserver { index, .. } => ScopeView::One(
            spec_global_id("webserver"@, index@),
        ),
        ConfigAction::UpsertMevo { index, .. } => ScopeView::One(spec_global_id("mevo"@, index@)),
        ConfigAction::UpsertGsPro { index, .. } => ScopeView::One(
            spec_global_id("gspro"@, index@),
        ),
        ConfigAction::UpsertMockMonitor { index, .. } => ScopeView::One(
            spec_global_id("mock_monitor"@, index@),
        ),
        ConfigAction::UpsertRandomClub { index, .. } => ScopeView::One(
            spec_global_id("random_club"@, index@),
        ),
        ConfigAction::Remove { id } => if split_at_dot(id@) is Some {
            ScopeView::One(id@)
        } else {
            ScopeView::Rejected
        },
    }
}

/// The configuration `after` is what the action makes of the configuration `before`.
pub open spec fn spec_config_changed(
    before: FlighthookConfig,
    action: ConfigAction,
    after: FlighthookConfig,
) -> bool {
    match action {
        ConfigAction::ReplaceAll { config } => after == config,
        ConfigAction::UpsertWebserver { index, section } => after.webserver@
            == before.webserver@.insert(index@, section) && same_but(before, after, "webserver"@),
        ConfigAction::UpsertMevo { index, section } => after.mevo@ == before.mevo@.insert(
            index@,
            section,
        ) && same_but(before, after, "mevo"@),
        ConfigAction::UpsertGsPro { index, section } => after.gspro@ == before.gspro@.insert(
            index@,
            section,
        ) && same_but(before, after, "gspro"@),
        ConfigAction::UpsertMockMonitor { index, section } => after.mock_monitor@
            == before.mock_monitor@.insert(index@, section) && same_but(
            before,
            after,
            "mock_monitor"@,
        ),
        ConfigAction::UpsertRandomClub { index, section } => after.random_club@
            == before.random_club@.insert(index@, section) && same_but(
            before,
            after,
            "random_club"@,
        ),
        ConfigAction::Remove { id } => match split_at_dot(id@) {
            Some((kind, index)) => {
                &&& same_but(before, after, kind)
                &&& kind == "mevo"@ ==> after.mevo@ == before.mevo@.remove(index)
                &&& kind == "gspro"@ ==> after.gspro@ == before.gspro@.remove(index)
                &&& kind == "mock_monitor"@ ==> after.mock_monitor@ == before.mock_monitor@.remove(
                    index,
                )
                &&& kind == "random_club"@ ==> after.random_club@ == before.random_club@.remove(
                    index,
                )
                &&& kind == "webserver"@ ==> after.webserver@ == before.webserver@.remove(index)
            },
            None => after == before,
        },
    }
}

/// Both configurations agree in the units and in the sections of every kind but `kind`.
pub open spec fn same_but(a: FlighthookConfig, b: FlighthookConfig, kind: Seq<char>) -> bool {
    &&& a.default_units == b.default_units
    &&& kind != "webserver"@ ==> a.webserver == b.webserver
    &&& kind != "mevo"@ ==> a.mevo == b.mevo
    &&& kind != "mock_monitor"@ ==> a.mock_monitor == b.mock_monitor
    &&& kind != "gspro"@ ==> a.gspro == b.gspro
    &&& kind != "random_club"@ ==> a.random_club == b.random_club
}

/// Applies an action to the configuration and says which actors it concerns.
pub fn handle_config_command(config: &mut FlighthookConfig, action: ConfigAction) -> (scope:
    ConfigScope)
    ensures
        scope@ == spec_scope(action),
        spec_config_changed(*old(config), action, *final(config)),
{
    proof {
        crate::actors::supervisor::lemma_kinds();
    }
    match action {
        ConfigAction::ReplaceAll { config: replacement } => {
            *config = replacement;
            ConfigScope::All
        },
        ConfigAction::UpsertWebserver { index, section } => {
            let id = crate::config::global_id("webserver", index.as_str());
            config.webserver.insert(index, section);
            ConfigScope::One(id)
        },
        ConfigAction::UpsertMevo { index, section } => {
            let id = crate::config::global_id("mevo", index.as_str());
            config.mevo.insert(index, section);
            ConfigScope::One(id)
        },
        ConfigAction::UpsertGsPro { index, section } => {
            let id = crate::config::global_id("gspro", index.as_str());
            config.gspro.insert(index, section);
            ConfigScope::One(id)
        },
        ConfigAction::UpsertMockMonitor { index, section } => {
            let id = crate::config::global_id("mock_monitor", index.as_str());
            config.mock_monitor.insert(index, section);
            ConfigScope::One(id)
        },
        ConfigAction::UpsertRandomClub { index, section } => {
            let id = crate::config::global_id("random_club", index.as_str());
            config.random_club.insert(index, section);
            ConfigScope::One(id)
        },
        ConfigAction::Remove { id } => {
            match split_once_dot(id.as_str()) {
                Some((kind, index)) => {
                    if str_eq(kind.as_str(), "mevo") {
                        config.mevo.remove(index.as_str());
                    } else if str_eq(kind.as_str(), "gspro") {
                        config.gspro.remove(index.as_str());
                    } else if str_eq(kind.as_str(), "mock_monitor") {
                        config.mock_monitor.remove(index.as_str());
                    } else if str_eq(kind.as_str(), "random_club") {
                        config.random_club.remove(index.as_str());
                    } else if str_eq(kind.as_str(), "webserver") {
                        config.webserver.remove(index.as_str());
                    }
                    ConfigScope::One(id)
                },
                None => ConfigScope::Rejected,
            }
        },
    }
}

/// Makes the announcement of what a change of the configuration did, for the request that
/// asked for it. A change that no request asked for is not announced.
pub fn config_outcome(request_id: &Option<String>, outcome: &ConfigReloadOutcome) -> (event: Option<
    FlighthookEvent,
>)
    ensures
        match *request_id {
            Some(id) => event matches Some(e) && e@ == (EventView::ConfigOutcome {
                request_id: id@,
                restarted: id_texts(outcome.restarted),
                stopped: id_texts(outcome.stopped),
                started: id_texts(outcome.started),
            }),
            None => event is None,
        },
{
    match request_id {
        Some(id) => {
            let restarted = duplicate_list(&outcome.restarted);
            let stopped = duplicate_list(&outcome.stopped);
            let started = duplicate_list(&outcome.started);
            assert(id_texts(restarted) =~= id_texts(outcome.restarted));
            assert(id_texts(stopped) =~= id_texts(outcome.stopped));
            assert(id_texts(started) =~= id_texts(outcome.started));
            Some(
                FlighthookEvent::ConfigOutcome(
                    ConfigOutcome { request_id: id.clone(), restarted, stopped, started },
                ),
            )
        },
        None => None,
    }
}

/// The configuration holds no section of the kind `kind` under the index `index`.
pub open spec fn lacks_section(config: &FlighthookConfig, kind: Seq<char>, index: Seq<char>) -> bool {
    &&& kind == "mevo"@ ==> !config.mevo@.contains_key(index)
    &&& kind == "mock_monitor"@ ==> !config.mock_monitor@.contains_key(index)
    &&& kind == "gspro"@ ==> !config.gspro@.contains_key(index)
    &&& kind == "random_club"@ ==> !config.random_club@.contains_key(index)
    &&& kind == "webserver"@ ==> !config.webserver@.contains_key(index)
}

/// After an action has taken the section of an id out, the configuration holds no section
/// under that id.
pub proof fn lemma_removed_is_gone(before: FlighthookConfig, after: FlighthookConfig, id: String)
    requires
        spec_config_changed(before, ConfigAction::Remove { id }, after),
        split_at_dot(id@) is Some,
    ensures
        lacks_section(&after, split_at_dot(id@)->Some_0.0, split_at_dot(id@)->Some_0.1),
{
}

/// Where the configuration holds no section under an id, it asks for no actor under it, and
/// reconciliation stops the actor that runs under it.
pub proof fn lemma_unwanted_is_stopped(
    config: &FlighthookConfig,
    running: Map<Seq<char>, ActorSpec>,
    book: Map<Seq<char>, SocketAddress>,
    id: Seq<char>,
)
    requires
        split_at_dot(id) is Some,
        lacks_section(config, split_at_dot(id)->Some_0.0, split_at_dot(id)->Some_0.1),
        running.contains_key(id),
    ensures
        spec_expected(config, book, id) is None,
        spec_change(running, config, book, id) == Change::Stopped,
        spec_running_after(running, config, book, id) is None,
{
    reveal_strlit("system");
    if id == system_id() {
        assert(crate::text::no_dot(id)) by {
            assert(id.len() == 6);
            assert(id =~= seq!['s', 'y', 's', 't', 'e', 'm']);
        }
        crate::text::lemma_no_first_dot(id);
    }
}

/// Taking out the section of a running actor stops the actor. After the action has taken
/// the section of the id `id` out of the configuration, reconciliation stops the actor that
/// runs under that id, and nothing runs under the id afterwards.
pub proof fn lemma_removed_is_stopped(
    before: FlighthookConfig,
    after: FlighthookConfig,
    id: String,
    running: Map<Seq<char>, ActorSpec>,
    book: Map<Seq<char>, SocketAddress>,
)
    requires
        spec_config_changed(before, ConfigAction::Remove { id }, after),
        split_at_dot(id@) is Some,
        running.contains_key(id@),
    ensures
        spec_scope(ConfigAction::Remove { id }) == ScopeView::One(id@),
        spec_change(running, &after, book, id@) == Change::Stopped,
        spec_running_after(running, &after, book, id@) is None,
{
    lemma_removed_is_gone(before, after, id);
    lemma_unwanted_is_stopped(&after, running, book, id@);
}

} // verus!
