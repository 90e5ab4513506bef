//! Reconciliation: bringing the set of running actors into agreement with the configuration.

use crate::actors::resolve::{
    expected_actor, spec_announcement, spec_expected, spec_reconfigure, ActorSpec,
    ReconfigureOutcome,
};
use crate::actors::supervisor::{
    has_id, lemma_resolve_actors, resolve_actors, resolved_views, spec_resolve_actors,
};
use crate::address::{AddressBook, SocketAddress};
use crate::config::FlighthookConfig;
use crate::message::{id_texts, FlighthookEvent};
use crate::strmap::StrMap;
use crate::text::{split_at_dot, str_eq};
use vstd::prelude::*;
use vstd::string::*;

verus! {

/// The running actors, each under its id.
pub type Registry = StrMap<ActorSpec>;

/// What reconciliation does about one id.
#[derive(Debug, Clone, Copy, PartialEq, Eq, Structural)]
pub enum Change {
    /// Nothing.
    Keep,
    /// The running actor takes the change over and announces it.
    Applied,
    /// The running actor is stopped and the actor that is asked for is started in its place.
    Restarted,
    /// The running actor is stopped, for the configuration asks for none under its id.
    Stopped,
    /// The actor that is asked for is started; none was running under its id.
    Started,
}

/// The id of the system actor, which always runs and which reconciliation leaves alone.
pub open spec fn system_id() -> Seq<char> {
    "system"@
}

/// What a map holds under `id`, if anything.
pub open spec fn at<V>(m: Map<Seq<char>, V>, id: Seq<char>) -> Option<V> {
    if m.contains_key(id) {
        Some(m[id])
    } else {
        None
    }
}

/// What reconciliation does about the id `id`, given the actors that run. The system actor is
/// left alone. An actor for which the configuration asks no longer is stopped. One that runs
/// and is still asked for is asked what it has to do. One that is asked for and does not run
/// is started.
pub open spec fn spec_change(
    running: Map<Seq<char>, ActorSpec>,
    config: &FlighthookConfig,
    book: Map<Seq<char>, SocketAddress>,
    id: Seq<char>,
) -> Change {
    if id == system_id() {
        Change::Keep
    } else {
        match (at(running, id), spec_expected(config, book, id)) {
            (Some(actor), Some(_)) => match spec_reconfigure(actor, id, config, book) {
                ReconfigureOutcome::NoChange => Change::Keep,
                ReconfigureOutcome::Applied => Change::Applied,
                ReconfigureOutcome::RestartRequired => Change::Restarted,
            },
            (Some(_), None) => Change::Stopped,
            (None, Some(_)) => Change::Started,
            (None, None) => Change::Keep,
        }
    }
}

/// The actor that runs under `id` after reconciliation has dealt with the id.
pub open spec fn spec_running_after(
    running: Map<Seq<char>, ActorSpec>,
    config: &FlighthookConfig,
    book: Map<Seq<char>, SocketAddress>,
    id: Seq<char>,
) -> Option<ActorSpec> {
    match spec_change(running, config, book, id) {
        Change::Stopped => None,
        Change::Restarted | Change::Started => spec_expected(config, book, id),
        _ => at(running, id),
    }
}

/// What dealing with one id gave: what was done, and what the actor announces on the bus
/// where it takes a change over.
#[derive(Debug, Clone)]
pub struct Reconciled {
    pub change: Change,
    pub announce: Option<FlighthookEvent>,
}

/// Deals with one id: decides what is to be done about it and brings the registry up to date.
pub fn reconcile_one(
    registry: &mut Registry,
    config: &FlighthookConfig,
    book: &AddressBook,
    id: &str,
) -> (r: Reconciled)
    ensures
        r.change == spec_change(old(registry)@, config, book@, id@),
        at(final(registry)@, id@) == spec_running_after(old(registry)@, config, book@, id@),
        forall|other: Seq<char>|
            other != id@ ==> at(final(registry)@, other) == at(old(registry)@, other),
        r.announce is Some <==> r.change == Change::Applied,
        r.announce matches Some(e) ==> e@ == spec_announcement(old(registry)@[id@], id@, config),
{
    if str_eq(id, "system") {
        return Reconciled { change: Change::Keep, announce: None };
    }
    let expected = expected_actor(config, book, id);
    let running = registry.get(id);
    match (running, expected) {
        (Some(actor), Some(wanted)) => {
            let asked = actor.reconfigure(id, config, book);
            match asked.outcome {
                ReconfigureOutcome::NoChange => Reconciled { change: Change::Keep, announce: None },
                ReconfigureOutcome::Applied => Reconciled {
                    change: Change::Applied,
                    announce: asked.announce,
                },
                ReconfigureOutcome::RestartRequired => {
                    registry.insert(String::from_str(id), wanted);
                    Reconciled { change: Change::Restarted, announce: None }
                },
            }
        },
        (Some(_), None) => {
            registry.remove(id);
            Reconciled { change: Change::Stopped, announce: None }
        },
        (None, Some(wanted)) => {
            registry.insert(String::from_str(id), wanted);
            Reconciled { change: Change::Started, announce: None }
        },
        (None, None) => Reconciled { change: Change::Keep, announce: None },
    }
}

/// An announcement of an actor on the bus: the id of the actor and what it announces.
#[derive(Debug, Clone)]
pub struct Announcement {
    pub source: String,
    pub event: FlighthookEvent,
}

/// What a reconciliation did: the ids of the actors that took a change over, that were
/// restarted, that were stopped and that were started, and the announcements of those that
/// took a change over.
#[derive(Debug, Clone)]
pub struct ConfigReloadOutcome {
    pub applied: Vec<String>,
    pub restarted: Vec<String>,
    pub stopped: Vec<String>,
    pub started: Vec<String>,
    pub announcements: Vec<Announcement>,
}

/// `x` is one of the first `n` of `ids`.
pub open spec fn among(ids: Seq<Seq<char>>, n: int, x: Seq<char>) -> bool {
    exists|m: int| 0 <= m < n && m < ids.len() && #[trigger] ids[m] == x
}

/// The list holds exactly those of the first `n` candidates about which `change` was done.
pub open spec fn lists(
    list: Seq<Seq<char>>,
    change: Change,
    running: Map<Seq<char>, ActorSpec>,
    config: &FlighthookConfig,
    book: Map<Seq<char>, SocketAddress>,
    candidates: Seq<Seq<char>>,
    n: int,
) -> bool {
    forall|id: Seq<char>| #[trigger]
        list.contains(id) <==> among(candidates, n, id) && spec_change(running, config, book, id)
            == change
}

/// Every announcement comes from an actor that took a change over, and says what that actor
/// announces.
pub open spec fn announced(
    announcements: Seq<Announcement>,
    applied: Seq<Seq<char>>,
    running: Map<Seq<char>, ActorSpec>,
    config: &FlighthookConfig,
) -> bool {
    &&& announcements.len() == applied.len()
    &&& forall|i: int|
        0 <= i < announcements.len() ==> (#[trigger] announcements[i]).source@ == applied[i]
            && announcements[i].event@ == spec_announcement(running[applied[i]], applied[i], config)
}

fn contains_id(list: &Vec<String>, id: &str) -> (r: bool)
    ensures
        r == id_texts(*list).contains(id@),
{
    let mut i: usize = 0;
    while i < list.len()
        invariant
            i <= list@.len(),
            forall|j: int| 0 <= j < i ==> id_texts(*list)[j] != id@,
        decreases list@.len() - i,
    {
        if str_eq(list[i].as_str(), id) {
            assert(id_texts(*list)[i as int] == id@);
            return true;
        }
        i = i + 1;
    }
    false
}

fn push_id(list: &mut Vec<String>, id: &str)
    ensures
        id_texts(*final(list)) == id_texts(*old(list)).push(id@),
{
    list.push(String::from_str(id));
    assert(id_texts(*list) =~= id_texts(*old(list)).push(id@));
}

/// Lists every id that reconciliation has to deal with: the ids of the running actors, then
/// the ids for which the configuration asks for an actor and under which none runs. No id is
/// listed twice.
pub fn candidates(registry: &Registry, config: &FlighthookConfig, book: &AddressBook) -> (list:
    Vec<String>)
    ensures
        id_texts(list).no_duplicates(),
        forall|id: Seq<char>| #[trigger]
            id_texts(list).contains(id) <==> registry@.contains_key(id) || spec_expected(
                config,
                book@,
                id,
            ) is Some,
{
    let mut list = registry.key_list();
    proof {
        registry.lemma_keys_distinct();
        registry.lemma_dom();
        assert(id_texts(list) =~= registry.keys());
    }
    let resolved = resolve_actors(config, book);
    let ghost wanted = spec_resolve_actors(config, book@);
    let mut i: usize = 0;
    while i < resolved.len()
        invariant
            i <= resolved@.len(),
            resolved_views(resolved@) == wanted,
            id_texts(list).no_duplicates(),
            forall|id: Seq<char>| #[trigger]
                id_texts(list).contains(id) <==> registry@.contains_key(id) || (exists|m: int|
                    0 <= m < i && (#[trigger] wanted[m]).id == id),
        decreases resolved@.len() - i,
    {
        let id = &resolved[i].id;
        assert(wanted[i as int].id == id@);
        let ghost before = id_texts(list);
        if !contains_id(&list, id.as_str()) {
            push_id(&mut list, id.as_str());
            proof {
                assert forall|k: Seq<char>| #[trigger]
                    id_texts(list).contains(k) <==> registry@.contains_key(k) || (exists|m: int|
                        0 <= m < i + 1 && (#[trigger] wanted[m]).id == k) by {
                    if before.contains(k) {
                        let w = before.index_of(k);
                        assert(0 <= w < before.len() && before[w] == k);
                        assert(id_texts(list)[w] == k);
                    }
                    if k == id@ {
                        assert(id_texts(list)[before.len() as int] == k);
                    }
                    if id_texts(list).contains(k) && k != id@ {
                        let w = id_texts(list).index_of(k);
                        assert(0 <= w < id_texts(list).len() && id_texts(list)[w] == k);
                        assert(before[w] == k);
                    }
                }
            }
        }
        i = i + 1;
    }
    proof {
        assert forall|id: Seq<char>| #[trigger]
            id_texts(list).contains(id) <==> registry@.contains_key(id) || spec_expected(
                config,
                book@,
                id,
            ) is Some by {
            lemma_resolve_actors(config, book@, id);
            if has_id(wanted, id) {
                let w = choose|w: int| 0 <= w < wanted.len() && (#[trigger] wanted[w]).id == id;
                assert(0 <= w < resolved@.len());
            }
        }
    }
    list
}

/// What reconciliation does about an id, and what runs under it afterwards, depends only on
/// what runs under that id.
pub proof fn lemma_change_local(
    r1: Map<Seq<char>, ActorSpec>,
    r2: Map<Seq<char>, ActorSpec>,
    config: &FlighthookConfig,
    book: Map<Seq<char>, SocketAddress>,
    id: Seq<char>,
)
    requires
        at(r1, id) == at(r2, id),
    ensures
        spec_change(r1, config, book, id) == spec_change(r2, config, book, id),
        spec_running_after(r1, config, book, id) == spec_running_after(r2, config, book, id),
{
}

/// One more candidate dealt with: the list for `change` gains the candidate where `change`
/// was done about it, and stays as it is where not.
pub proof fn lemma_lists_step(
    list: Seq<Seq<char>>,
    change: Change,
    running: Map<Seq<char>, ActorSpec>,
    config: &FlighthookConfig,
    book: Map<Seq<char>, SocketAddress>,
    candidates: Seq<Seq<char>>,
    n: int,
)
    requires
        0 <= n < candidates.len(),
        candidates.no_duplicates(),
        list.no_duplicates(),
        lists(list, change, running, config, book, candidates, n),
    ensures
        spec_change(running, config, book, candidates[n]) == change ==> lists(
            list.push(candidates[n]),
            change,
            running,
            config,
            book,
            candidates,
            n + 1,
        ) && list.push(candidates[n]).no_duplicates(),
        spec_change(running, config, book, candidates[n]) != change ==> lists(
            list,
            change,
            running,
            config,
            book,
            candidates,
            n + 1,
        ),
{
    let id = candidates[n];
    assert(among(candidates, n + 1, id));
    assert(!among(candidates, n, id));
    assert(!list.contains(id));
    let grown = list.push(id);
    assert forall|k: Seq<char>| among(candidates, n + 1, k) <==> among(candidates, n, k) || k
        == id by {
        if among(candidates, n + 1, k) && k != id {
            let m = choose|m: int| 0 <= m < n + 1 && m < candidates.len() && #[trigger]
                candidates[m] == k;
            assert(m < n);
        }
        if among(candidates, n, k) {
            let m = choose|m: int| 0 <= m < n && m < candidates.len() && #[trigger]
                candidates[m] == k;
            assert(0 <= m < n + 1);
        }
    }
    assert forall|k: Seq<char>| #[trigger] grown.contains(k) <==> list.contains(k) || k == id by {
        if list.contains(k) {
            let w = list.index_of(k);
            assert(0 <= w < list.len() && list[w] == k);
            assert(grown[w] == k);
        }
        if k == id {
            assert(grown[list.len() as int] == k);
        }
        if grown.contains(k) && k != id {
            let w = grown.index_of(k);
            assert(0 <= w < grown.len() && grown[w] == k);
            assert(list[w] == k);
        }
    }
    assert(grown.no_duplicates()) by {
        assert forall|a: int, b: int|
            0 <= a < grown.len() && 0 <= b < grown.len() && a != b implies grown[a]
            != grown[b] by {
            if a < list.len() && b < list.len() {
                assert(list[a] != list[b]);
            } else if a < list.len() {
                assert(list.contains(list[a]));
            } else {
                assert(list.contains(list[b]));
            }
        }
    }
}

/// An outcome without any id.
pub fn empty_outcome() -> (out: ConfigReloadOutcome)
    ensures
        id_texts(out.applied) == Seq::<Seq<char>>::empty(),
        id_texts(out.restarted) == Seq::<Seq<char>>::empty(),
        id_texts(out.stopped) == Seq::<Seq<char>>::empty(),
        id_texts(out.started) == Seq::<Seq<char>>::empty(),
        out.announcements@.len() == 0,
{
    let out = ConfigReloadOutcome {
        applied: Vec::new(),
        restarted: Vec::new(),
        stopped: Vec::new(),
        started: Vec::new(),
        announcements: Vec::new(),
    };
    assert(id_texts(out.applied) =~= Seq::<Seq<char>>::empty());
    assert(id_texts(out.restarted) =~= Seq::<Seq<char>>::empty());
    assert(id_texts(out.stopped) =~= Seq::<Seq<char>>::empty());
    assert(id_texts(out.started) =~= Seq::<Seq<char>>::empty());
    out
}

/// The outcome lists exactly what was done about the first `n` candidates.
pub open spec fn records(
    out: ConfigReloadOutcome,
    running: Map<Seq<char>, ActorSpec>,
    config: &FlighthookConfig,
    book: Map<Seq<char>, SocketAddress>,
    candidates: Seq<Seq<char>>,
    n: int,
) -> bool {
    &&& lists(id_texts(out.applied), Change::Applied, running, config, book, candidates, n)
    &&& lists(id_texts(out.restarted), Change::Restarted, running, config, book, candidates, n)
    &&& lists(id_texts(out.stopped), Change::Stopped, running, config, book, candidates, n)
    &&& lists(id_texts(out.started), Change::Started, running, config, book, candidates, n)
    &&& id_texts(out.applied).no_duplicates()
    &&& id_texts(out.restarted).no_duplicates()
    &&& id_texts(out.stopped).no_duplicates()
    &&& id_texts(out.started).no_duplicates()
    &&& announced(out.announcements@, id_texts(out.applied), running, config)
}

/// Deals with the candidate at `n` and takes it down in the outcome.
fn reconcile_next(
    registry: &mut Registry,
    config: &FlighthookConfig,
    book: &AddressBook,
    ids: &Vec<String>,
    n: usize,
    out: &mut ConfigReloadOutcome,
    Ghost(running): Ghost<Map<Seq<char>, ActorSpec>>,
)
    requires
        n < ids@.len(),
        id_texts(*ids).no_duplicates(),
        records(*old(out), running, config, book@, id_texts(*ids), n as int),
        forall|id: Seq<char>|
            at(old(registry)@, id) == (if among(id_texts(*ids), n as int, id) {
                spec_running_after(running, config, book@, id)
            } else {
                at(running, id)
            }),
    ensures
        records(*final(out), running, config, book@, id_texts(*ids), n + 1),
        forall|id: Seq<char>|
            at(final(registry)@, id) == (if among(id_texts(*ids), n + 1, id) {
                spec_running_after(running, config, book@, id)
            } else {
                at(running, id)
            }),
{
    let ghost cand = id_texts(*ids);
    let id = &ids[n];
    let ghost before = registry@;
    proof {
        assert(cand[n as int] == id@);
        assert(!among(cand, n as int, id@));
        lemma_change_local(before, running, config, book@, id@);
        lemma_lists_step(id_texts(out.applied), Change::Applied, running, config, book@, cand, n as int);
        lemma_lists_step(
            id_texts(out.restarted),
            Change::Restarted,
            running,
            config,
            book@,
            cand,
            n as int,
        );
        lemma_lists_step(id_texts(out.stopped), Change::Stopped, running, config, book@, cand, n as int);
        lemma_lists_step(id_texts(out.started), Change::Started, running, config, book@, cand, n as int);
    }
    let done = reconcile_one(registry, config, book, id.as_str());
    proof {
        assert forall|k: Seq<char>|
            at(registry@, k) == (if among(cand, n + 1, k) {
                spec_running_after(running, config, book@, k)
            } else {
                at(running, k)
            }) by {
            if k != id@ {
                if among(cand, n + 1, k) {
                    let m = choose|m: int| 0 <= m < n + 1 && m < cand.len() && #[trigger] cand[m]
                        == k;
                    assert(m < n);
                    assert(among(cand, n as int, k));
                }
                if among(cand, n as int, k) {
                    let m = choose|m: int| 0 <= m < n && m < cand.len() && #[trigger] cand[m] == k;
                    assert(among(cand, n + 1, k));
                }
            } else {
                assert(among(cand, n + 1, k));
            }
        }
    }
    match done.change {
        Change::Keep => {},
        Change::Applied => {
            let ghost applied_before = id_texts(out.applied);
            let ghost ann_before = out.announcements@;
            push_id(&mut out.applied, id.as_str());
            match done.announce {
                Some(event) => {
                    out.announcements.push(Announcement { source: id.clone(), event });
                },
                None => {},
            }
            proof {
                let applied = id_texts(out.applied);
                assert forall|i: int| 0 <= i < out.announcements@.len() implies (
                #[trigger] out.announcements@[i]).source@ == applied[i]
                    && out.announcements@[i].event@ == spec_announcement(
                    running[applied[i]],
                    applied[i],
                    config,
                ) by {
                    if i < ann_before.len() {
                        assert(out.announcements@[i] == ann_before[i]);
                        assert(applied[i] == applied_before[i]);
                    }
                }
            }
        },
        Change::Restarted => {
            push_id(&mut out.restarted, id.as_str());
        },
        Change::Stopped => {
            push_id(&mut out.stopped, id.as_str());
        },
        Change::Started => {
            push_id(&mut out.started, id.as_str());
        },
    }
}

/// Brings the running actors into agreement with the configuration and reports what was
/// done. With a scope, only the actor of that id is dealt with and every other actor is left
/// as it is; without one, every running actor and every actor that the configuration asks for
/// is dealt with. The system actor is always left alone.
///
/// Afterwards the registry holds, under every id that was dealt with, the actor that
/// reconciliation leaves running there. The outcome lists every id under the change that was
/// done about it, none of them twice.
pub fn apply_config_reload(
    registry: &mut Registry,
    config: &FlighthookConfig,
    book: &AddressBook,
    scope: Option<&str>,
) -> (out: ConfigReloadOutcome)
    ensures
        forall|id: Seq<char>|
            at(final(registry)@, id) == (if in_scope(scope, id) {
                spec_running_after(old(registry)@, config, book@, id)
            } else {
                at(old(registry)@, id)
            }),
        reports(id_texts(out.applied), Change::Applied, old(registry)@, config, book@, scope),
        reports(id_texts(out.restarted), Change::Restarted, old(registry)@, config, book@, scope),
        reports(id_texts(out.stopped), Change::Stopped, old(registry)@, config, book@, scope),
        reports(id_texts(out.started), Change::Started, old(registry)@, config, book@, scope),
        announced(out.announcements@, id_texts(out.applied), old(registry)@, config),
{
    let ghost running = registry@;
    let mut out = empty_outcome();
    let ids: Vec<String> = match scope {
        Some(target) => {
            let mut one: Vec<String> = Vec::new();
            one.push(String::from_str(target));
            assert(id_texts(one) =~= seq![target@]);
            one
        },
        None => candidates(registry, config, book),
    };
    let ghost cand = id_texts(ids);
    let mut n: usize = 0;
    proof {
        lemma_reload_start(out, running, config, book@, cand);
    }
    while n < ids.len()
        invariant
            n <= ids@.len(),
            cand == id_texts(ids),
            cand.no_duplicates(),
            records(out, running, config, book@, cand, n as int),
            forall|id: Seq<char>|
                at(registry@, id) == (if among(cand, n as int, id) {
                    spec_running_after(running, config, book@, id)
                } else {
                    at(running, id)
                }),
        decreases ids@.len() - n,
    {
        reconcile_next(registry, config, book, &ids, n, &mut out, Ghost(running));
        n = n + 1;
    }
    proof {
        lemma_reload_done(out, running, registry@, config, book@, cand, scope);
    }
    out
}

/// Before any candidate is dealt with, an empty outcome records all that was done.
pub proof fn lemma_reload_start(
    out: ConfigReloadOutcome,
    running: Map<Seq<char>, ActorSpec>,
    config: &FlighthookConfig,
    book: Map<Seq<char>, SocketAddress>,
    candidates: Seq<Seq<char>>,
)
    requires
        id_texts(out.applied) == Seq::<Seq<char>>::empty(),
        id_texts(out.restarted) == Seq::<Seq<char>>::empty(),
        id_texts(out.stopped) == Seq::<Seq<char>>::empty(),
        id_texts(out.started) == Seq::<Seq<char>>::empty(),
        out.announcements@.len() == 0,
    ensures
        records(out, running, config, book, candidates, 0),
        forall|id: Seq<char>| !among(candidates, 0, id),
{
}

/// The candidates are the scope alone, or every id under which an actor runs or is asked for.
pub open spec fn candidates_for(
    candidates: Seq<Seq<char>>,
    running: Map<Seq<char>, ActorSpec>,
    config: &FlighthookConfig,
    book: Map<Seq<char>, SocketAddress>,
    scope: Option<&str>,
) -> bool {
    match scope {
        Some(target) => candidates == seq![target@],
        None => forall|id: Seq<char>| #[trigger]
            candidates.contains(id) <==> running.contains_key(id) || spec_expected(
                config,
                book,
                id,
            ) is Some,
    }
}

/// A candidate is in scope; about an id in scope that is no candidate nothing is done.
pub proof fn lemma_candidate(
    running: Map<Seq<char>, ActorSpec>,
    config: &FlighthookConfig,
    book: Map<Seq<char>, SocketAddress>,
    candidates: Seq<Seq<char>>,
    scope: Option<&str>,
    id: Seq<char>,
)
    requires
        candidates_for(candidates, running, config, book, scope),
    ensures
        among(candidates, candidates.len() as int, id) ==> in_scope(scope, id),
        !among(candidates, candidates.len() as int, id) && in_scope(scope, id) ==> spec_change(
            running,
            config,
            book,
            id,
        ) == Change::Keep && spec_running_after(running, config, book, id) == at(running, id),
{
    let n = candidates.len() as int;
    match scope {
        Some(target) => {
            assert(candidates[0] == target@);
            if among(candidates, n, id) {
                let m = choose|m: int| 0 <= m < n && m < candidates.len() && #[trigger]
                    candidates[m] == id;
                assert(m == 0);
            }
        },
        None => {
            if candidates.contains(id) {
                let w = candidates.index_of(id);
                assert(0 <= w < n && candidates[w] == id);
            }
        },
    }
}

/// Once every candidate is dealt with, the registry and the outcome are as reconciliation
/// promises.
pub proof fn lemma_reload_done(
    out: ConfigReloadOutcome,
    running: Map<Seq<char>, ActorSpec>,
    after: Map<Seq<char>, ActorSpec>,
    config: &FlighthookConfig,
    book: Map<Seq<char>, SocketAddress>,
    candidates: Seq<Seq<char>>,
    scope: Option<&str>,
)
    requires
        candidates_for(candidates, running, config, book, scope),
        records(out, running, config, book, candidates, candidates.len() as int),
        forall|id: Seq<char>|
            at(after, id) == (if among(candidates, candidates.len() as int, id) {
                spec_running_after(running, config, book, id)
            } else {
                at(running, id)
            }),
    ensures
        forall|id: Seq<char>|
            at(after, id) == (if in_scope(scope, id) {
                spec_running_after(running, config, book, id)
            } else {
                at(running, id)
            }),
        reports(id_texts(out.applied), Change::Applied, running, config, book, scope),
        reports(id_texts(out.restarted), Change::Restarted, running, config, book, scope),
        reports(id_texts(out.stopped), Change::Stopped, running, config, book, scope),
        reports(id_texts(out.started), Change::Started, running, config, book, scope),
{
    let n = candidates.len() as int;
    assert forall|id: Seq<char>| among(candidates, n, id) implies in_scope(scope, id) by {
        lemma_candidate(running, config, book, candidates, scope, id);
    }
    assert forall|id: Seq<char>| !among(candidates, n, id) implies !in_scope(scope, id) || (
    spec_change(running, config, book, id) == Change::Keep && spec_running_after(
        running,
        config,
        book,
        id,
    ) == at(running, id)) by {
        lemma_candidate(running, config, book, candidates, scope, id);
    }
    lemma_reports(id_texts(out.applied), Change::Applied, running, config, book, candidates, scope);
    lemma_reports(
        id_texts(out.restarted),
        Change::Restarted,
        running,
        config,
        book,
        candidates,
        scope,
    );
    lemma_reports(id_texts(out.stopped), Change::Stopped, running, config, book, candidates, scope);
    lemma_reports(id_texts(out.started), Change::Started, running, config, book, candidates, scope);
}

/// A list that holds what was done about the candidates holds what was done in scope.
pub proof fn lemma_reports(
    list: Seq<Seq<char>>,
    change: Change,
    running: Map<Seq<char>, ActorSpec>,
    config: &FlighthookConfig,
    book: Map<Seq<char>, SocketAddress>,
    candidates: Seq<Seq<char>>,
    scope: Option<&str>,
)
    requires
        change != Change::Keep,
        list.no_duplicates(),
        lists(list, change, running, config, book, candidates, candidates.len() as int),
        forall|id: Seq<char>|
            among(candidates, candidates.len() as int, id) ==> in_scope(scope, id),
        forall|id: Seq<char>|
            !among(candidates, candidates.len() as int, id) ==> !in_scope(scope, id) || spec_change(
                running,
                config,
                book,
                id,
            ) == Change::Keep,
    ensures
        reports(list, change, running, config, book, scope),
{
}

/// Reconciliation deals with the id: there is no scope, or the id is the scope.
pub open spec fn in_scope(scope: Option<&str>, id: Seq<char>) -> bool {
    match scope {
        Some(target) => id == target@,
        None => true,
    }
}

/// The list holds, each once, exactly the ids in scope about which `change` was done.
pub open spec fn reports(
    list: Seq<Seq<char>>,
    change: Change,
    running: Map<Seq<char>, ActorSpec>,
    config: &FlighthookConfig,
    book: Map<Seq<char>, SocketAddress>,
    scope: Option<&str>,
) -> bool {
    &&& change != Change::Keep
    &&& list.no_duplicates()
    &&& forall|id: Seq<char>| #[trigger]
        list.contains(id) <==> in_scope(scope, id) && spec_change(running, config, book, id)
            == change
}

/// After a reconciliation without scope the registry holds exactly the actors that the
/// configuration asks for, and the system actor where it ran before.
pub proof fn lemma_registry_after_reload(
    running: Map<Seq<char>, ActorSpec>,
    config: &FlighthookConfig,
    book: Map<Seq<char>, SocketAddress>,
    id: Seq<char>,
)
    ensures
        spec_running_after(running, config, book, id) is Some <==> spec_expected(config, book, id)
            is Some || (id == system_id() && running.contains_key(id)),
        spec_change(running, config, book, id) == Change::Stopped ==> spec_running_after(
            running,
            config,
            book,
            id,
        ) is None,
{
    reveal_strlit("system");
    if id == system_id() {
        assert(crate::text::no_dot(id)) by {
            assert(id.len() == 6);
            assert(id =~= seq!['s', 'y', 's', 't', 'e', 'm']);
        }
        crate::text::lemma_no_first_dot(id);
    }
}

/// The index of a web server's id is what follows the kind and the dot.
pub proof fn lemma_web_index(index: Seq<char>)
    ensures
        crate::actors::resolve::web_index(crate::config::spec_global_id("webserver"@, index))
            == index,
{
    reveal_strlit("webserver");
    reveal_strlit("webserver.");
    let id = crate::config::spec_global_id("webserver"@, index);
    let prefix = "webserver."@;
    assert(prefix =~= "webserver"@ + seq!['.']);
    assert(id.take(prefix.len() as int) =~= prefix);
    assert(id.skip(prefix.len() as int) =~= index);
}

/// An actor that was started from the configuration does not have to be restarted for that
/// configuration.
pub proof fn lemma_started_stays(
    config: &FlighthookConfig,
    book: Map<Seq<char>, SocketAddress>,
    id: Seq<char>,
)
    requires
        spec_expected(config, book, id) is Some,
    ensures
        spec_reconfigure(spec_expected(config, book, id)->Some_0, id, config, book)
            != ReconfigureOutcome::RestartRequired,
{
    crate::actors::supervisor::lemma_split_rejoin(id);
    crate::actors::supervisor::lemma_kinds();
    let kind = split_at_dot(id)->Some_0.0;
    let index = split_at_dot(id)->Some_0.1;
    if kind == "webserver"@ {
        lemma_web_index(index);
    }
}

/// Reconciliation settles. Once an id was dealt with, dealing with it again under the same
/// configuration stops, starts and restarts nothing: the actor that runs under the id is
/// kept, and a device actor is once more told of its section's settings.
pub proof fn lemma_reload_settles(
    running: Map<Seq<char>, ActorSpec>,
    after: Map<Seq<char>, ActorSpec>,
    config: &FlighthookConfig,
    book: Map<Seq<char>, SocketAddress>,
    id: Seq<char>,
)
    requires
        at(after, id) == spec_running_after(running, config, book, id),
    ensures
        spec_change(after, config, book, id) == Change::Keep || spec_change(
            after,
            config,
            book,
            id,
        ) == Change::Applied,
{
    if id != system_id() {
        match spec_change(running, config, book, id) {
            Change::Restarted | Change::Started => {
                lemma_started_stays(config, book, id);
            },
            Change::Stopped => {},
            _ => {
                lemma_change_local(running, after, config, book, id);
            },
        }
    }
}

} // verus!
