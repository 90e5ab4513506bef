//! The web actor's picture of the system: every actor's last status, and the last shots.

pub mod routes;
pub mod ws;

use crate::api::ActorStatusResponse;
use crate::event::{new_telemetry, no_telemetry, put_text, telemetry_text, ActorStatus, ShotData};
use crate::message::{id_texts, FlighthookEvent, GameStateCommandEvent, LaunchMonitorEvent};
use crate::strmap::{Duplicate, StrMap};
use crate::text::{decimal, u64_to_decimal};
use std::collections::VecDeque;
use vstd::prelude::*;
use vstd::string::*;

verus! {

/// How many shots are kept.
pub const MAX_SHOTS: usize = 1000;

/// An actor as the status endpoint shows it, with its texts as plain sequences.
pub struct ActorView {
    pub name: Seq<char>,
    pub status: ActorStatus,
    pub telemetry: Map<Seq<char>, Seq<char>>,
}

impl View for ActorStatusResponse {
    type V = ActorView;

    open spec fn view(&self) -> ActorView {
        ActorView {
            name: self.name@,
            status: self.status,
            telemetry: telemetry_text(self.telemetry),
        }
    }
}

/// What is shown of an actor of which nothing is known but its name.
pub open spec fn spec_new_actor(name: Seq<char>) -> ActorView {
    ActorView { name, status: ActorStatus::Disconnected, telemetry: no_telemetry() }
}

/// Makes the record of an actor of which nothing is known but its name: disconnected, without
/// telemetry.
pub fn new_actor(name: String) -> (a: ActorStatusResponse)
    ensures
        a@ == spec_new_actor(name@),
{
    ActorStatusResponse { name, status: ActorStatus::Disconnected, telemetry: new_telemetry() }
}

/// The actors of a map, each as it is shown.
pub open spec fn actor_views(actors: Map<Seq<char>, ActorStatusResponse>) -> Map<
    Seq<char>,
    ActorView,
> {
    actors.map_values(|a: ActorStatusResponse| a@)
}

/// The web actor's picture of the system: the actors that are shown, the last shots, and the
/// ids of the actors that were stopped. A status report of a stopped actor is passed over,
/// so that the actor stays out of the picture until it is started again.
pub struct WebProjection {
    pub actors: StrMap<ActorStatusResponse>,
    pub shots: VecDeque<ShotData>,
    pub stopped: StrMap<bool>,
}

/// What a map shows under `id`, if anything.
pub open spec fn shown(actors: Map<Seq<char>, ActorView>, id: Seq<char>) -> Option<ActorView> {
    if actors.contains_key(id) {
        Some(actors[id])
    } else {
        None
    }
}

/// The shots after one more: the oldest shot gives way where the limit is reached.
pub open spec fn spec_ring_push(shots: Seq<ShotData>, shot: ShotData) -> Seq<ShotData> {
    if shots.len() >= MAX_SHOTS {
        shots.skip(1).push(shot)
    } else {
        shots.push(shot)
    }
}

/// The actors after a status report of `source`: the report takes the place of what was
/// known of the actor, and the actor keeps its name; an actor that was unknown has no name.
pub open spec fn spec_after_status(
    actors: Map<Seq<char>, ActorView>,
    source: Seq<char>,
    status: ActorStatus,
    telemetry: Map<Seq<char>, Seq<char>>,
) -> Map<Seq<char>, ActorView> {
    actors.insert(
        source,
        ActorView {
            name: match shown(actors, source) {
                Some(a) => a.name,
                None => Seq::empty(),
            },
            status,
            telemetry,
        },
    )
}

/// The actors after a status report of `source`, given the ids of the actors that were
/// stopped: the report of a stopped actor is passed over, any other report is taken down.
pub open spec fn spec_status_taken(
    actors: Map<Seq<char>, ActorView>,
    gone: Set<Seq<char>>,
    source: Seq<char>,
    status: ActorStatus,
    telemetry: Map<Seq<char>, Seq<char>>,
) -> Map<Seq<char>, ActorView> {
    if gone.contains(source) {
        actors
    } else {
        spec_after_status(actors, source, status, telemetry)
    }
}

/// The actors after `source` has reported `value` under the telemetry key `key`: a known
/// actor has it added to its telemetry; of an unknown actor nothing is taken down.
pub open spec fn spec_after_note(
    actors: Map<Seq<char>, ActorView>,
    source: Seq<char>,
    key: Seq<char>,
    value: Seq<char>,
) -> Map<Seq<char>, ActorView> {
    match shown(actors, source) {
        Some(a) => actors.insert(
            source,
            ActorView { telemetry: a.telemetry.insert(key, value), ..a },
        ),
        None => actors,
    }
}

impl WebProjection {
    /// The actors, each as it is shown.
    pub open spec fn spec_actors(&self) -> Map<Seq<char>, ActorView> {
        actor_views(self.actors@)
    }

    /// The ids of the actors that were stopped and not started again.
    pub open spec fn spec_gone(&self) -> Set<Seq<char>> {
        self.stopped@.dom()
    }

    /// A picture without actors and without shots, in which no actor counts as stopped.
    pub fn new() -> (p: WebProjection)
        ensures
            p.spec_actors() == Map::<Seq<char>, ActorView>::empty(),
            p.shots@ == Seq::<ShotData>::empty(),
            p.spec_gone() == Set::<Seq<char>>::empty(),
    {
        let p = WebProjection {
            actors: StrMap::new(),
            shots: VecDeque::new(),
            stopped: StrMap::new(),
        };
        assert(p.spec_actors() =~= Map::<Seq<char>, ActorView>::empty());
        assert(p.spec_gone() =~= Set::<Seq<char>>::empty());
        p
    }

    fn put_actor(&mut self, id: &str, actor: ActorStatusResponse)
        ensures
            final(self).spec_actors() == old(self).spec_actors().insert(id@, actor@),
            final(self).shots == old(self).shots,
            final(self).stopped == old(self).stopped,
    {
        self.actors.insert(String::from_str(id), actor);
        assert(self.spec_actors() =~= old(self).spec_actors().insert(id@, actor@));
    }

    /// Takes down a status report of `source`, unless `source` was stopped.
    pub fn on_status(&mut self, source: &str, status: ActorStatus, telemetry: &StrMap<String>)
        ensures
            final(self).spec_actors() == spec_status_taken(
                old(self).spec_actors(),
                old(self).spec_gone(),
                source@,
                status,
                telemetry_text(*telemetry),
            ),
            final(self).shots == old(self).shots,
            final(self).stopped == old(self).stopped,
    {
        if self.stopped.contains_key(source) {
            return ;
        }
        let name = match self.actors.get(source) {
            Some(a) => a.name.clone(),
            None => String::new(),
        };
        self.put_actor(
            source,
            ActorStatusResponse { name, status, telemetry: telemetry.duplicate() },
        );
    }

    /// Takes down that `source` has reported `value` under the telemetry key `key`.
    pub fn on_note(&mut self, source: &str, key: &str, value: String)
        ensures
            final(self).spec_actors() == spec_after_note(
                old(self).spec_actors(),
                source@,
                key@,
                value@,
            ),
            final(self).shots == old(self).shots,
            final(self).stopped == old(self).stopped,
    {
        let updated = match self.actors.get(source) {
            Some(a) => {
                let mut telemetry = a.telemetry.duplicate();
                put_text(&mut telemetry, key, value);
                Some(ActorStatusResponse { name: a.name.clone(), status: a.status, telemetry })
            },
            None => None,
        };
        match updated {
            Some(a) => {
                self.put_actor(source, a);
            },
            None => {},
        }
    }

    /// Takes in a shot. Where a thousand shots are held, the oldest gives way.
    pub fn on_shot(&mut self, shot: ShotData)
        ensures
            final(self).shots@ == spec_ring_push(old(self).shots@, shot),
            final(self).shots@.len() <= MAX_SHOTS || final(self).shots@.len() == old(self).shots@.len(),
            final(self).actors == old(self).actors,
            final(self).stopped == old(self).stopped,
    {
        if self.shots.len() >= MAX_SHOTS {
            let _ = self.shots.pop_front();
            assert(self.shots@ =~= old(self).shots@.skip(1));
        }
        self.shots.push_back(shot);
    }

    /// Sets the name of the actor `id`, which is put in without status where it is unknown.
    pub fn on_name(&mut self, id: &str, name: String)
        ensures
            final(self).spec_actors() == spec_after_name(old(self).spec_actors(), id@, name@),
            final(self).shots == old(self).shots,
            final(self).stopped == old(self).stopped,
    {
        let updated = match self.actors.get(id) {
            Some(a) => ActorStatusResponse {
                name,
                status: a.status,
                telemetry: a.telemetry.duplicate(),
            },
            None => new_actor(name),
        };
        self.put_actor(id, updated);
    }

    /// Forgets the actor `id` and marks it as stopped.
    pub fn on_stopped(&mut self, id: &str)
        ensures
            final(self).spec_actors() == old(self).spec_actors().remove(id@),
            final(self).spec_gone() == old(self).spec_gone().insert(id@),
            final(self).shots == old(self).shots,
    {
        self.actors.remove(id);
        self.stopped.insert(String::from_str(id), true);
        assert(self.spec_actors() =~= old(self).spec_actors().remove(id@));
        assert(self.spec_gone() =~= old(self).spec_gone().insert(id@));
    }

    /// Takes the mark off the actor `id`, which runs again.
    pub fn on_revived(&mut self, id: &str)
        ensures
            final(self).spec_gone() == old(self).spec_gone().remove(id@),
            final(self).actors == old(self).actors,
            final(self).shots == old(self).shots,
    {
        self.stopped.remove(id);
        assert(self.spec_gone() =~= old(self).spec_gone().remove(id@));
    }

    fn revive_all(&mut self, ids: &Vec<String>)
        ensures
            final(self).spec_gone() == unmarked(
                old(self).spec_gone(),
                id_texts(*ids),
                ids@.len() as int,
            ),
            final(self).actors == old(self).actors,
            final(self).shots == old(self).shots,
    {
        let mut k: usize = 0;
        while k < ids.len()
            invariant
                k <= ids@.len(),
                self.actors == old(self).actors,
                self.shots == old(self).shots,
                self.spec_gone() == unmarked(old(self).spec_gone(), id_texts(*ids), k as int),
            decreases ids@.len() - k,
        {
            assert(id_texts(*ids)[k as int] == ids@[k as int]@);
            self.on_revived(ids[k].as_str());
            k = k + 1;
        }
    }

    /// Brings the picture up to date after a change of the configuration that started,
    /// stopped or restarted an actor. The actors that were started or restarted no longer
    /// count as stopped; every section's actor is shown under the section's name; the actors
    /// that were stopped are forgotten and count as stopped from now on. A change that touched
    /// no actor changes nothing.
    pub fn on_config_outcome(
        &mut self,
        names: &StrMap<String>,
        restarted: &Vec<String>,
        stopped: &Vec<String>,
        started: &Vec<String>,
    )
        ensures
            final(self).shots == old(self).shots,
            final(self).spec_actors() == spec_actors_after_outcome(
                old(self).spec_actors(),
                names.keys(),
                names.values(),
                id_texts(*restarted),
                id_texts(*stopped),
                id_texts(*started),
            ),
            final(self).spec_gone() == spec_gone_after_outcome(
                old(self).spec_gone(),
                id_texts(*restarted),
                id_texts(*stopped),
                id_texts(*started),
            ),
    {
        if restarted.len() == 0 && stopped.len() == 0 && started.len() == 0 {
            return ;
        }
        self.revive_all(started);
        self.revive_all(restarted);
        let ghost before = self.spec_actors();
        let ghost revived = self.spec_gone();
        let n: usize = names.len();
        let mut i: usize = 0;
        while i < n
            invariant
                i <= n,
                n == names.keys().len(),
                n == names.values().len(),
                self.shots == old(self).shots,
                self.spec_gone() == revived,
                self.spec_actors() == named(before, names.keys(), names.values(), i as int),
            decreases n - i,
        {
            let id = names.key_at(i);
            let name = names.value_at(i);
            self.on_name(id.as_str(), name.clone());
            i = i + 1;
        }
        let ghost renamed = self.spec_actors();
        let mut j: usize = 0;
        while j < stopped.len()
            invariant
                j <= stopped@.len(),
                self.shots == old(self).shots,
                self.spec_actors() == forgotten(renamed, id_texts(*stopped), j as int),
                self.spec_gone() == marked(revived, id_texts(*stopped), j as int),
            decreases stopped@.len() - j,
        {
            assert(id_texts(*stopped)[j as int] == stopped@[j as int]@);
            self.on_stopped(stopped[j].as_str());
            j = j + 1;
        }
    }

    /// The last `limit` shots, oldest first; all shots where fewer are held.
    pub fn last_shots(&self, limit: usize) -> (shots: Vec<ShotData>)
        ensures
            shots@ == spec_last(self.shots@, limit as int),
    {
        let n: usize = self.shots.len();
        let start: usize = if limit >= n {
            0
        } else {
            n - limit
        };
        let mut out: Vec<ShotData> = Vec::new();
        let mut i: usize = start;
        while i < n
            invariant
                start <= i <= n,
                n == self.shots@.len(),
                out@ == self.shots@.subrange(start as int, i as int),
            decreases n - i,
        {
            out.push(self.shots[i].duplicate());
            assert(out@ =~= self.shots@.subrange(start as int, i + 1));
            i = i + 1;
        }
        assert(out@ =~= spec_last(self.shots@, limit as int));
        out
    }
}

/// The actors after the actor `id` was given the name `name`.
pub open spec fn spec_after_name(
    actors: Map<Seq<char>, ActorView>,
    id: Seq<char>,
    name: Seq<char>,
) -> Map<Seq<char>, ActorView> {
    actors.insert(
        id,
        match shown(actors, id) {
            Some(a) => ActorView { name, ..a },
            None => spec_new_actor(name),
        },
    )
}

/// The actors after the first `n` of the ids were given their names.
pub open spec fn named(
    actors: Map<Seq<char>, ActorView>,
    ids: Seq<Seq<char>>,
    names: Seq<String>,
    n: int,
) -> Map<Seq<char>, ActorView>
    decreases n,
{
    if n <= 0 {
        actors
    } else {
        spec_after_name(named(actors, ids, names, n - 1), ids[n - 1], names[n - 1]@)
    }
}

/// The actors after the first `n` of the ids were forgotten.
pub open spec fn forgotten(
    actors: Map<Seq<char>, ActorView>,
    ids: Seq<Seq<char>>,
    n: int,
) -> Map<Seq<char>, ActorView>
    decreases n,
{
    if n <= 0 {
        actors
    } else {
        forgotten(actors, ids, n - 1).remove(ids[n - 1])
    }
}

/// The ids that count as stopped after the first `n` of the ids were marked.
pub open spec fn marked(gone: Set<Seq<char>>, ids: Seq<Seq<char>>, n: int) -> Set<Seq<char>>
    decreases n,
{
    if n <= 0 {
        gone
    } else {
        marked(gone, ids, n - 1).insert(ids[n - 1])
    }
}

/// The ids that count as stopped after the mark was taken off the first `n` of the ids.
pub open spec fn unmarked(gone: Set<Seq<char>>, ids: Seq<Seq<char>>, n: int) -> Set<Seq<char>>
    decreases n,
{
    if n <= 0 {
        gone
    } else {
        unmarked(gone, ids, n - 1).remove(ids[n - 1])
    }
}

/// The actors after a change of the configuration. A change that started, stopped or
/// restarted an actor has every section's actor shown under the section's name, and the
/// actors that were stopped forgotten; a change that touched no actor changes nothing.
pub open spec fn spec_actors_after_outcome(
    actors: Map<Seq<char>, ActorView>,
    ids: Seq<Seq<char>>,
    names: Seq<String>,
    restarted: Seq<Seq<char>>,
    stopped: Seq<Seq<char>>,
    started: Seq<Seq<char>>,
) -> Map<Seq<char>, ActorView> {
    if restarted.len() == 0 && stopped.len() == 0 && started.len() == 0 {
        actors
    } else {
        forgotten(named(actors, ids, names, ids.len() as int), stopped, stopped.len() as int)
    }
}

/// The ids that count as stopped after a change of the configuration: the actors that were
/// started or restarted no longer do, and those that were stopped do.
pub open spec fn spec_gone_after_outcome(
    gone: Set<Seq<char>>,
    restarted: Seq<Seq<char>>,
    stopped: Seq<Seq<char>>,
    started: Seq<Seq<char>>,
) -> Set<Seq<char>> {
    if restarted.len() == 0 && stopped.len() == 0 && started.len() == 0 {
        gone
    } else {
        marked(
            unmarked(
                unmarked(gone, started, started.len() as int),
                restarted,
                restarted.len() as int,
            ),
            stopped,
            stopped.len() as int,
        )
    }
}

/// The last `limit` of the shots.
pub open spec fn spec_last(shots: Seq<ShotData>, limit: int) -> Seq<ShotData> {
    if limit >= shots.len() {
        shots
    } else {
        shots.subrange(shots.len() - limit, shots.len() as int)
    }
}

/// Forgetting shows no actor that was not shown before.
pub proof fn lemma_forgotten_shows_less(
    actors: Map<Seq<char>, ActorView>,
    ids: Seq<Seq<char>>,
    n: int,
    id: Seq<char>,
)
    requires
        forgotten(actors, ids, n).contains_key(id),
    ensures
        actors.contains_key(id),
    decreases n,
{
    if n > 0 {
        lemma_forgotten_shows_less(actors, ids, n - 1, id);
    }
}

/// An actor that was forgotten is not shown, whatever was known of it.
pub proof fn lemma_forgotten_is_gone(
    actors: Map<Seq<char>, ActorView>,
    ids: Seq<Seq<char>>,
    n: int,
    m: int,
)
    requires
        0 <= m < n <= ids.len(),
    ensures
        !forgotten(actors, ids, n).contains_key(ids[m]),
    decreases n,
{
    if m < n - 1 {
        lemma_forgotten_is_gone(actors, ids, n - 1, m);
    }
}

/// A status report makes up for every report that was missed before it: whatever two
/// pictures showed of an actor that runs, after the same report of that actor both show the
/// same status and the same telemetry for it, and neither shows anything else differently
/// than before.
pub proof fn lemma_status_converges(
    seen: Map<Seq<char>, ActorView>,
    missed: Map<Seq<char>, ActorView>,
    gone: Set<Seq<char>>,
    source: Seq<char>,
    status: ActorStatus,
    telemetry: Map<Seq<char>, Seq<char>>,
    other: Seq<char>,
)
    requires
        other != source,
        !gone.contains(source),
    ensures
        spec_status_taken(seen, gone, source, status, telemetry).contains_key(source),
        spec_status_taken(missed, gone, source, status, telemetry).contains_key(source),
        spec_status_taken(seen, gone, source, status, telemetry)[source].status == status,
        spec_status_taken(seen, gone, source, status, telemetry)[source].telemetry == telemetry,
        spec_status_taken(missed, gone, source, status, telemetry)[source].status == status,
        spec_status_taken(missed, gone, source, status, telemetry)[source].telemetry
            == telemetry,
        shown(spec_status_taken(seen, gone, source, status, telemetry), other) == shown(
            seen,
            other,
        ),
        shown(spec_status_taken(missed, gone, source, status, telemetry), other) == shown(
            missed,
            other,
        ),
{
}

/// An id that was marked counts as stopped, whatever counted as stopped before.
pub proof fn lemma_marked_is_gone(gone: Set<Seq<char>>, ids: Seq<Seq<char>>, n: int, m: int)
    requires
        0 <= m < n <= ids.len(),
    ensures
        marked(gone, ids, n).contains(ids[m]),
    decreases n,
{
    if m < n - 1 {
        lemma_marked_is_gone(gone, ids, n - 1, m);
    }
}

/// A stopped actor disappears from the picture and stays out of it. After a change of the
/// configuration that stopped the actor, the picture shows nothing under the actor's id, and
/// a status report of that actor that comes afterwards, such as its last one, does not bring
/// it back.
pub proof fn lemma_stopped_stays_gone(
    actors: Map<Seq<char>, ActorView>,
    gone: Set<Seq<char>>,
    ids: Seq<Seq<char>>,
    names: Seq<String>,
    restarted: Seq<Seq<char>>,
    stopped: Seq<Seq<char>>,
    started: Seq<Seq<char>>,
    m: int,
    status: ActorStatus,
    telemetry: Map<Seq<char>, Seq<char>>,
)
    requires
        0 <= m < stopped.len(),
    ensures
        !spec_actors_after_outcome(actors, ids, names, restarted, stopped, started).contains_key(
            stopped[m],
        ),
        spec_gone_after_outcome(gone, restarted, stopped, started).contains(stopped[m]),
        !spec_status_taken(
            spec_actors_after_outcome(actors, ids, names, restarted, stopped, started),
            spec_gone_after_outcome(gone, restarted, stopped, started),
            stopped[m],
            status,
            telemetry,
        ).contains_key(stopped[m]),
{
    let renamed = named(actors, ids, names, ids.len() as int);
    lemma_forgotten_is_gone(renamed, stopped, stopped.len() as int, m);
    let revived = unmarked(
        unmarked(gone, started, started.len() as int),
        restarted,
        restarted.len() as int,
    );
    lemma_marked_is_gone(revived, stopped, stopped.len() as int, m);
}

/// The ring never holds more than a thousand shots once it holds no more than that.
pub proof fn lemma_ring_bounded(shots: Seq<ShotData>, shot: ShotData)
    requires
        shots.len() <= MAX_SHOTS,
    ensures
        spec_ring_push(shots, shot).len() <= MAX_SHOTS,
        spec_ring_push(shots, shot).last() == shot,
{
}

/// The telemetry of the web actor: the address it binds, how many sockets are open and how
/// many requests it has served; and the reason where it could not bind.
pub open spec fn spec_web_telemetry(
    bind: Seq<char>,
    websockets: u64,
    requests: u64,
    status: ActorStatus,
) -> Map<Seq<char>, Seq<char>> {
    let base = no_telemetry().insert("bind"@, bind).insert(
        "websockets"@,
        decimal(websockets as nat),
    ).insert("requests"@, decimal(requests as nat));
    if status == ActorStatus::Disconnected {
        base.insert("error"@, "bind failed"@)
    } else {
        base
    }
}

/// Builds the telemetry of the web actor.
pub fn web_telemetry(bind: &str, websockets: u64, requests: u64, status: ActorStatus) -> (t: StrMap<
    String,
>)
    ensures
        telemetry_text(t) == spec_web_telemetry(bind@, websockets, requests, status),
{
    let mut t = new_telemetry();
    put_text(&mut t, "bind", String::from_str(bind));
    put_text(&mut t, "websockets", u64_to_decimal(websockets));
    put_text(&mut t, "requests", u64_to_decimal(requests));
    if status == ActorStatus::Disconnected {
        put_text(&mut t, "error", String::from_str("bind failed"));
    }
    t
}

/// The picture `after` is the picture `before` with `value` taken down under the telemetry key
/// `key` of the actor `source`, where that actor is known.
pub open spec fn noted(
    before: WebProjection,
    after: WebProjection,
    source: Seq<char>,
    key: Seq<char>,
    value: Seq<char>,
) -> bool {
    &&& after.spec_actors() == spec_after_note(before.spec_actors(), source, key, value)
    &&& after.shots == before.shots
    &&& after.stopped == before.stopped
}

/// Takes in one message of the bus, sent by `source`: a status report, a shot, what a
/// simulator says of the player and the club, or the outcome of a change of the
/// configuration, for which `names` holds the display names of the configuration's sections.
/// Everything else is passed over.
pub fn apply_bus_event(
    projection: &mut WebProjection,
    names: &StrMap<String>,
    source: &str,
    event: &FlighthookEvent,
)
    ensures
        match *event {
            FlighthookEvent::ActorStatus(update) => final(projection).spec_actors()
                == spec_status_taken(
                old(projection).spec_actors(),
                old(projection).spec_gone(),
                source@,
                update.status,
                telemetry_text(update.telemetry),
            ) && final(projection).shots == old(projection).shots && final(projection).stopped
                == old(projection).stopped,
            FlighthookEvent::LaunchMonitor(recv) => match recv.event {
                LaunchMonitorEvent::ShotResult { shot } => final(projection).shots@
                    == spec_ring_push(old(projection).shots@, *shot) && final(projection).actors
                    == old(projection).actors && final(projection).stopped
                    == old(projection).stopped,
                _ => *final(projection) == *old(projection),
            },
            FlighthookEvent::GameStateCommand(command) => match command.event {
                GameStateCommandEvent::SetPlayerInfo { player_info } => noted(
                    *old(projection),
                    *final(projection),
                    source@,
                    "handed"@,
                    player_info.handed@,
                ),
                GameStateCommandEvent::SetClubInfo { club_info } => noted(
                    *old(projection),
                    *final(projection),
                    source@,
                    "club"@,
                    club_info.club.spec_code(),
                ),
                _ => *final(projection) == *old(projection),
            },
            FlighthookEvent::ConfigOutcome(outcome) => final(projection).spec_actors()
                == spec_actors_after_outcome(
                old(projection).spec_actors(),
                names.keys(),
                names.values(),
                id_texts(outcome.restarted),
                id_texts(outcome.stopped),
                id_texts(outcome.started),
            ) && final(projection).spec_gone() == spec_gone_after_outcome(
                old(projection).spec_gone(),
                id_texts(outcome.restarted),
                id_texts(outcome.stopped),
                id_texts(outcome.started),
            ) && final(projection).shots == old(projection).shots,
            _ => *final(projection) == *old(projection),
        },
{
    match event {
        FlighthookEvent::ActorStatus(update) => {
            projection.on_status(source, update.status, &update.telemetry);
        },
        FlighthookEvent::LaunchMonitor(recv) => match &recv.event {
            LaunchMonitorEvent::ShotResult { shot } => {
                projection.on_shot(shot.duplicate());
            },
            _ => {},
        },
        FlighthookEvent::GameStateCommand(command) => match &command.event {
            GameStateCommandEvent::SetPlayerInfo { player_info } => {
                projection.on_note(source, "handed", player_info.handed.clone());
            },
            GameStateCommandEvent::SetClubInfo { club_info } => {
                projection.on_note(source, "club", club_info.club.to_text());
            },
            _ => {},
        },
        FlighthookEvent::ConfigOutcome(outcome) => {
            projection.on_config_outcome(
                names,
                &outcome.restarted,
                &outcome.stopped,
                &outcome.started,
            );
        },
        _ => {},
    }
}

} // verus!
