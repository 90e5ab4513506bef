//! The list of actors that a configuration asks for, and their display names.

use crate::actors::resolve::{
    actor_for, spec_actor_for, spec_expected, spec_name_for, ActorSpec, ResolvedActor,
};
use crate::address::{AddressBook, SocketAddress};
use crate::config::{global_id, spec_global_id, FlighthookConfig};
use crate::event::{new_telemetry, put_text, telemetry_text};
use crate::strmap::StrMap;
use crate::text::{lemma_first_dot, no_dot, split_at_dot, str_eq};
use vstd::prelude::*;
use vstd::string::*;

verus! {

/// `kind` is one of the five kinds of section.
pub open spec fn is_kind(kind: Seq<char>) -> bool {
    kind == "mevo"@ || kind == "mock_monitor"@ || kind == "gspro"@ || kind == "random_club"@
        || kind == "webserver"@
}

/// The indices under which the configuration holds a section of the kind `kind`, in order.
pub open spec fn spec_indices(config: &FlighthookConfig, kind: Seq<char>) -> Seq<Seq<char>> {
    if kind == "mevo"@ {
        config.mevo.keys()
    } else if kind == "mock_monitor"@ {
        config.mock_monitor.keys()
    } else if kind == "gspro"@ {
        config.gspro.keys()
    } else if kind == "random_club"@ {
        config.random_club.keys()
    } else if kind == "webserver"@ {
        config.webserver.keys()
    } else {
        Seq::empty()
    }
}

/// No kind holds a dot, and no two kinds are the same text.
pub proof fn lemma_kinds()
    ensures
        no_dot("mevo"@),
        no_dot("mock_monitor"@),
        no_dot("gspro"@),
        no_dot("random_club"@),
        no_dot("webserver"@),
        "mevo"@ != "mock_monitor"@,
        "mevo"@ != "gspro"@,
        "mevo"@ != "random_club"@,
        "mevo"@ != "webserver"@,
        "mock_monitor"@ != "gspro"@,
        "mock_monitor"@ != "random_club"@,
        "mock_monitor"@ != "webserver"@,
        "gspro"@ != "random_club"@,
        "gspro"@ != "webserver"@,
        "random_club"@ != "webserver"@,
{
    reveal_strlit("mevo");
    reveal_strlit("mock_monitor");
    reveal_strlit("gspro");
    reveal_strlit("random_club");
    reveal_strlit("webserver");
    assert("mevo"@ =~= seq!['m', 'e', 'v', 'o']);
    assert("mock_monitor"@ =~= seq!['m', 'o', 'c', 'k', '_', 'm', 'o', 'n', 'i', 't', 'o', 'r']);
    assert("gspro"@ =~= seq!['g', 's', 'p', 'r', 'o']);
    assert("random_club"@ =~= seq!['r', 'a', 'n', 'd', 'o', 'm', '_', 'c', 'l', 'u', 'b']);
    assert("webserver"@ =~= seq!['w', 'e', 'b', 's', 'e', 'r', 'v', 'e', 'r']);
    assert("mevo"@.len() == 4);
    assert("gspro"@.len() == 5);
    assert("mock_monitor"@.len() == 12);
    assert("random_club"@.len() == 11);
    assert("webserver"@.len() == 9);
}

/// An id that is made of a kind without a dot, a dot and an index splits into that kind and
/// that index.
pub proof fn lemma_split_global_id(kind: Seq<char>, index: Seq<char>)
    requires
        no_dot(kind),
    ensures
        split_at_dot(spec_global_id(kind, index)) == Some((kind, index)),
{
    let id = spec_global_id(kind, index);
    let i = kind.len() as int;
    assert(id[i] == '.');
    assert(id.take(i) =~= kind);
    assert(id.skip(i + 1) =~= index);
    lemma_first_dot(id, i);
}

/// An id that splits into a kind and an index is that kind, a dot and that index.
pub proof fn lemma_split_rejoin(id: Seq<char>)
    requires
        split_at_dot(id) is Some,
    ensures
        id == spec_global_id(split_at_dot(id)->Some_0.0, split_at_dot(id)->Some_0.1),
        no_dot(split_at_dot(id)->Some_0.0),
{
    crate::text::lemma_split_parts(id);
}

/// Two ids with a kind each that holds no dot are the same only where kind and index are.
pub proof fn lemma_ids_differ(k1: Seq<char>, x1: Seq<char>, k2: Seq<char>, x2: Seq<char>)
    requires
        no_dot(k1),
        no_dot(k2),
        k1 != k2 || x1 != x2,
    ensures
        spec_global_id(k1, x1) != spec_global_id(k2, x2),
{
    lemma_split_global_id(k1, x1);
    lemma_split_global_id(k2, x2);
}

/// An actor that the configuration asks for, with its texts as plain sequences.
pub struct ResolvedView {
    pub id: Seq<char>,
    pub name: Seq<char>,
    pub actor: ActorSpec,
}

impl View for ResolvedActor {
    type V = ResolvedView;

    open spec fn view(&self) -> ResolvedView {
        ResolvedView { id: self.id@, name: self.name@, actor: self.actor }
    }
}

/// What each item of a list says, in order.
pub open spec fn resolved_views(list: Seq<ResolvedActor>) -> Seq<ResolvedView> {
    list.map_values(|r: ResolvedActor| r@)
}

/// The actors of the kind `kind` under the first `n` of the indices `indices`, in order. An
/// index whose section yields no actor is passed over.
pub open spec fn resolve_indices(
    config: &FlighthookConfig,
    book: Map<Seq<char>, SocketAddress>,
    kind: Seq<char>,
    indices: Seq<Seq<char>>,
    n: int,
) -> Seq<ResolvedView>
    decreases n,
{
    if n <= 0 {
        Seq::empty()
    } else {
        let before = resolve_indices(config, book, kind, indices, n - 1);
        match spec_actor_for(config, book, kind, indices[n - 1]) {
            Some(actor) => before.push(
                ResolvedView {
                    id: spec_global_id(kind, indices[n - 1]),
                    name: spec_name_for(config, kind, indices[n - 1]),
                    actor,
                },
            ),
            None => before,
        }
    }
}

/// The actors of the kind `kind` that the configuration asks for, in the order of their
/// sections.
pub open spec fn resolve_kind_all(
    config: &FlighthookConfig,
    book: Map<Seq<char>, SocketAddress>,
    kind: Seq<char>,
) -> Seq<ResolvedView> {
    resolve_indices(
        config,
        book,
        kind,
        spec_indices(config, kind),
        spec_indices(config, kind).len() as int,
    )
}

/// The actors that the configuration asks for: the launch monitors, the simulated monitors,
/// the simulator bridges, the simulated simulators and the web servers, in that order.
pub open spec fn spec_resolve_actors(
    config: &FlighthookConfig,
    book: Map<Seq<char>, SocketAddress>,
) -> Seq<ResolvedView> {
    resolve_kind_all(config, book, "mevo"@) + resolve_kind_all(config, book, "mock_monitor"@)
        + resolve_kind_all(config, book, "gspro"@) + resolve_kind_all(
        config,
        book,
        "random_club"@,
    ) + resolve_kind_all(config, book, "webserver"@)
}

/// Some item of the list has the id `id`.
pub open spec fn has_id(list: Seq<ResolvedView>, id: Seq<char>) -> bool {
    exists|i: int| 0 <= i < list.len() && (#[trigger] list[i]).id == id
}

fn name_for(config: &FlighthookConfig, kind: &str, index: &str) -> (name: String)
    ensures
        name@ == spec_name_for(config, kind@, index@),
{
    if str_eq(kind, "mevo") {
        match config.mevo.get(index) {
            Some(s) => {
                return s.name.clone();
            },
            None => {},
        }
    }
    if str_eq(kind, "mock_monitor") {
        match config.mock_monitor.get(index) {
            Some(s) => {
                return s.name.clone();
            },
            None => {},
        }
    }
    if str_eq(kind, "gspro") {
        match config.gspro.get(index) {
            Some(s) => {
                return s.name.clone();
            },
            None => {},
        }
    }
    if str_eq(kind, "random_club") {
        match config.random_club.get(index) {
            Some(s) => {
                return s.name.clone();
            },
            None => {},
        }
    }
    if str_eq(kind, "webserver") {
        match config.webserver.get(index) {
            Some(s) => {
                return s.name.clone();
            },
            None => {},
        }
    }
    String::new()
}

fn indices(config: &FlighthookConfig, kind: &str) -> (list: Vec<String>)
    ensures
        list@.len() == spec_indices(config, kind@).len(),
        forall|i: int| 0 <= i < list@.len() ==> (#[trigger] list@[i])@ == spec_indices(
            config,
            kind@,
        )[i],
        spec_indices(config, kind@).no_duplicates(),
{
    if str_eq(kind, "mevo") {
        let list = config.mevo.key_list();
        proof {
            config.mevo.lemma_keys_distinct();
            config.mevo.lemma_dom();
        }
        list
    } else if str_eq(kind, "mock_monitor") {
        let list = config.mock_monitor.key_list();
        proof {
            config.mock_monitor.lemma_keys_distinct();
            config.mock_monitor.lemma_dom();
        }
        list
    } else if str_eq(kind, "gspro") {
        let list = config.gspro.key_list();
        proof {
            config.gspro.lemma_keys_distinct();
            config.gspro.lemma_dom();
        }
        list
    } else if str_eq(kind, "random_club") {
        let list = config.random_club.key_list();
        proof {
            config.random_club.lemma_keys_distinct();
            config.random_club.lemma_dom();
        }
        list
    } else if str_eq(kind, "webserver") {
        let list = config.webserver.key_list();
        proof {
            config.webserver.lemma_keys_distinct();
            config.webserver.lemma_dom();
        }
        list
    } else {
        Vec::new()
    }
}

fn resolve_kind(
    config: &FlighthookConfig,
    book: &AddressBook,
    kind: &str,
    out: &mut Vec<ResolvedActor>,
)
    ensures
        resolved_views(final(out)@) == resolved_views(old(out)@) + resolve_kind_all(
            config,
            book@,
            kind@,
        ),
{
    let keys = indices(config, kind);
    let ghost all = spec_indices(config, kind@);
    let ghost base = resolved_views(out@);
    let mut j: usize = 0;
    assert(resolved_views(out@) =~= base + resolve_indices(config, book@, kind@, all, 0));
    while j < keys.len()
        invariant
            j <= keys@.len(),
            all == spec_indices(config, kind@),
            keys@.len() == all.len(),
            forall|i: int| 0 <= i < keys@.len() ==> (#[trigger] keys@[i])@ == all[i],
            resolved_views(out@) == base + resolve_indices(config, book@, kind@, all, j as int),
        decreases keys@.len() - j,
    {
        let index = &keys[j];
        assert(index@ == all[j as int]);
        match actor_for(config, book, kind, index.as_str()) {
            Some(actor) => {
                let id = global_id(kind, index.as_str());
                let name = name_for(config, kind, index.as_str());
                let ghost before = out@;
                let item = ResolvedActor { id, name, actor };
                out.push(item);
                assert(resolved_views(out@) =~= resolved_views(before).push(item@));
                assert(resolved_views(out@) =~= base + resolve_indices(
                    config,
                    book@,
                    kind@,
                    all,
                    j + 1,
                ));
            },
            None => {},
        }
        j = j + 1;
    }
}

/// Where the configuration yields an actor for a kind and an index, it holds a section of
/// that kind under that index.
pub proof fn lemma_actor_needs_section(
    config: &FlighthookConfig,
    book: Map<Seq<char>, SocketAddress>,
    kind: Seq<char>,
    index: Seq<char>,
)
    requires
        spec_actor_for(config, book, kind, index) is Some,
    ensures
        is_kind(kind),
        spec_indices(config, kind).contains(index),
{
    config.mevo.lemma_dom();
    config.mock_monitor.lemma_dom();
    config.gspro.lemma_dom();
    config.random_club.lemma_dom();
    config.webserver.lemma_dom();
}

/// Lists the actors that the configuration asks for: first the launch monitors, then the
/// simulated monitors, the simulator bridges, the simulated simulators and the web servers,
/// each kind in the order of its sections. A section whose address cannot be read yields no
/// actor.
pub fn resolve_actors(config: &FlighthookConfig, book: &AddressBook) -> (list: Vec<ResolvedActor>)
    ensures
        resolved_views(list@) == spec_resolve_actors(config, book@),
{
    let mut out: Vec<ResolvedActor> = Vec::new();
    assert(resolved_views(out@) =~= Seq::<ResolvedView>::empty());
    resolve_kind(config, book, "mevo", &mut out);
    resolve_kind(config, book, "mock_monitor", &mut out);
    resolve_kind(config, book, "gspro", &mut out);
    resolve_kind(config, book, "random_club", &mut out);
    resolve_kind(config, book, "webserver", &mut out);
    assert(resolved_views(out@) =~= spec_resolve_actors(config, book@));
    out
}

/// Every item among the actors under the first `n` indices stands for the section under one
/// of those indices.
pub proof fn lemma_resolved_sound(
    config: &FlighthookConfig,
    book: Map<Seq<char>, SocketAddress>,
    kind: Seq<char>,
    indices: Seq<Seq<char>>,
    n: int,
    i: int,
)
    requires
        0 <= n <= indices.len(),
        0 <= i < resolve_indices(config, book, kind, indices, n).len(),
    ensures
        exists|m: int|
            0 <= m < n && resolve_indices(config, book, kind, indices, n)[i].id == spec_global_id(
                kind,
                #[trigger] indices[m],
            ) && spec_actor_for(config, book, kind, indices[m]) == Some(
                resolve_indices(config, book, kind, indices, n)[i].actor,
            ) && resolve_indices(config, book, kind, indices, n)[i].name == spec_name_for(
                config,
                kind,
                indices[m],
            ),
    decreases n,
{
    if n > 0 {
        let before = resolve_indices(config, book, kind, indices, n - 1);
        if i < before.len() {
            lemma_resolved_sound(config, book, kind, indices, n - 1, i);
            let m = choose|m: int|
                0 <= m < n - 1 && before[i].id == spec_global_id(kind, #[trigger] indices[m])
                    && spec_actor_for(config, book, kind, indices[m]) == Some(before[i].actor)
                    && before[i].name == spec_name_for(config, kind, indices[m]);
            assert(0 <= m < n);
        } else {
            assert(indices[n - 1] == indices[n - 1]);
        }
    }
}

/// Every index among the first `n` whose section yields an actor has its item among the
/// actors under the first `n` indices.
pub proof fn lemma_resolved_complete(
    config: &FlighthookConfig,
    book: Map<Seq<char>, SocketAddress>,
    kind: Seq<char>,
    indices: Seq<Seq<char>>,
    n: int,
    m: int,
)
    requires
        0 <= m < n <= indices.len(),
        spec_actor_for(config, book, kind, indices[m]) is Some,
    ensures
        has_id(resolve_indices(config, book, kind, indices, n), spec_global_id(kind, indices[m])),
    decreases n,
{
    let now = resolve_indices(config, book, kind, indices, n);
    let before = resolve_indices(config, book, kind, indices, n - 1);
    if m == n - 1 {
        assert(now[before.len() as int].id == spec_global_id(kind, indices[m]));
    } else {
        lemma_resolved_complete(config, book, kind, indices, n - 1, m);
        let w = choose|w: int| 0 <= w < before.len() && (#[trigger] before[w]).id
            == spec_global_id(kind, indices[m]);
        assert(now[w] == before[w]);
    }
}

/// An id that one of two lists holds is held by the two lists joined.
pub proof fn lemma_has_id_joined(a: Seq<ResolvedView>, b: Seq<ResolvedView>, id: Seq<char>)
    requires
        has_id(a, id) || has_id(b, id),
    ensures
        has_id(a + b, id),
{
    if has_id(a, id) {
        let w = choose|w: int| 0 <= w < a.len() && (#[trigger] a[w]).id == id;
        assert((a + b)[w] == a[w]);
    } else {
        let w = choose|w: int| 0 <= w < b.len() && (#[trigger] b[w]).id == id;
        assert((a + b)[a.len() + w] == b[w]);
    }
}

/// The list of actors holds the id of every actor of the kind `kind` that is asked for.
pub proof fn lemma_kind_listed(
    config: &FlighthookConfig,
    book: Map<Seq<char>, SocketAddress>,
    kind: Seq<char>,
    id: Seq<char>,
)
    requires
        is_kind(kind),
        has_id(resolve_kind_all(config, book, kind), id),
    ensures
        has_id(spec_resolve_actors(config, book), id),
{
    let devices = resolve_kind_all(config, book, "mevo"@);
    let mocks = resolve_kind_all(config, book, "mock_monitor"@);
    let bridges = resolve_kind_all(config, book, "gspro"@);
    let pickers = resolve_kind_all(config, book, "random_club"@);
    let webs = resolve_kind_all(config, book, "webserver"@);
    lemma_kinds();
    if has_id(devices, id) || has_id(mocks, id) {
        lemma_has_id_joined(devices, mocks, id);
    }
    if has_id(devices + mocks, id) || has_id(bridges, id) {
        lemma_has_id_joined(devices + mocks, bridges, id);
    }
    if has_id(devices + mocks + bridges, id) || has_id(pickers, id) {
        lemma_has_id_joined(devices + mocks + bridges, pickers, id);
    }
    lemma_has_id_joined(devices + mocks + bridges + pickers, webs, id);
}

/// Every id for which the configuration asks for an actor is in the list of actors.
pub proof fn lemma_expected_listed(
    config: &FlighthookConfig,
    book: Map<Seq<char>, SocketAddress>,
    id: Seq<char>,
)
    requires
        spec_expected(config, book, id) is Some,
    ensures
        has_id(spec_resolve_actors(config, book), id),
{
    lemma_split_rejoin(id);
    let kind = split_at_dot(id)->Some_0.0;
    let index = split_at_dot(id)->Some_0.1;
    lemma_actor_needs_section(config, book, kind, index);
    let ix = spec_indices(config, kind);
    let m = ix.index_of(index);
    assert(0 <= m < ix.len() && ix[m] == index);
    lemma_resolved_complete(config, book, kind, ix, ix.len() as int, m);
    lemma_kind_listed(config, book, kind, id);
}

/// The list of actors holds exactly the ids for which the configuration asks for an actor.
pub proof fn lemma_resolve_actors(
    config: &FlighthookConfig,
    book: Map<Seq<char>, SocketAddress>,
    id: Seq<char>,
)
    ensures
        spec_expected(config, book, id) is Some <==> has_id(spec_resolve_actors(config, book), id),
{
    if spec_expected(config, book, id) is Some {
        lemma_expected_listed(config, book, id);
    }
    if has_id(spec_resolve_actors(config, book), id) {
        let all = spec_resolve_actors(config, book);
        let w = choose|w: int| 0 <= w < all.len() && (#[trigger] all[w]).id == id;
        lemma_item_of_all(config, book, w);
    }
}

/// Where the item at `i` of the list of actors stands: the kind of its section, and its place
/// among the actors of that kind.
pub open spec fn place_of(
    config: &FlighthookConfig,
    book: Map<Seq<char>, SocketAddress>,
    i: int,
) -> (Seq<char>, int) {
    let devices = resolve_kind_all(config, book, "mevo"@).len();
    let mocks = resolve_kind_all(config, book, "mock_monitor"@).len();
    let bridges = resolve_kind_all(config, book, "gspro"@).len();
    let pickers = resolve_kind_all(config, book, "random_club"@).len();
    if i < devices {
        ("mevo"@, i)
    } else if i < devices + mocks {
        ("mock_monitor"@, i - devices)
    } else if i < devices + mocks + bridges {
        ("gspro"@, i - devices - mocks)
    } else if i < devices + mocks + bridges + pickers {
        ("random_club"@, i - devices - mocks - bridges)
    } else {
        ("webserver"@, i - devices - mocks - bridges - pickers)
    }
}

/// The item at `i` of the list of actors is the item at its place among the actors of its
/// kind.
pub proof fn lemma_place_of(config: &FlighthookConfig, book: Map<Seq<char>, SocketAddress>, i: int)
    requires
        0 <= i < spec_resolve_actors(config, book).len(),
    ensures
        is_kind(place_of(config, book, i).0),
        0 <= place_of(config, book, i).1 < resolve_kind_all(
            config,
            book,
            place_of(config, book, i).0,
        ).len(),
        spec_resolve_actors(config, book)[i] == resolve_kind_all(
            config,
            book,
            place_of(config, book, i).0,
        )[place_of(config, book, i).1],
{
}

/// An item among the actors of a kind has an id of that kind: the kind, a dot, and the index
/// of a section that yields the item's actor under the item's name.
pub proof fn lemma_item_of_kind(
    config: &FlighthookConfig,
    book: Map<Seq<char>, SocketAddress>,
    kind: Seq<char>,
    w: int,
)
    requires
        is_kind(kind),
        0 <= w < resolve_kind_all(config, book, kind).len(),
    ensures
        split_at_dot(resolve_kind_all(config, book, kind)[w].id) is Some,
        split_at_dot(resolve_kind_all(config, book, kind)[w].id)->Some_0.0 == kind,
        spec_expected(config, book, resolve_kind_all(config, book, kind)[w].id) == Some(
            resolve_kind_all(config, book, kind)[w].actor,
        ),
        resolve_kind_all(config, book, kind)[w].name == spec_name_for(
            config,
            kind,
            split_at_dot(resolve_kind_all(config, book, kind)[w].id)->Some_0.1,
        ),
{
    lemma_kinds();
    let part = resolve_kind_all(config, book, kind);
    let ix = spec_indices(config, kind);
    lemma_resolved_sound(config, book, kind, ix, ix.len() as int, w);
    let m = choose|m: int|
        0 <= m < ix.len() && part[w].id == spec_global_id(kind, #[trigger] ix[m])
            && spec_actor_for(config, book, kind, ix[m]) == Some(part[w].actor) && part[w].name
            == spec_name_for(config, kind, ix[m]);
    lemma_split_global_id(kind, ix[m]);
}

/// The item at `i` of the list of actors is the actor that is asked for under its id.
pub proof fn lemma_item_of_all(
    config: &FlighthookConfig,
    book: Map<Seq<char>, SocketAddress>,
    i: int,
)
    requires
        0 <= i < spec_resolve_actors(config, book).len(),
    ensures
        spec_expected(config, book, spec_resolve_actors(config, book)[i].id) == Some(
            spec_resolve_actors(config, book)[i].actor,
        ),
        is_kind(split_at_dot(spec_resolve_actors(config, book)[i].id)->Some_0.0),
        spec_resolve_actors(config, book)[i].name == spec_name_for(
            config,
            split_at_dot(spec_resolve_actors(config, book)[i].id)->Some_0.0,
            split_at_dot(spec_resolve_actors(config, book)[i].id)->Some_0.1,
        ),
{
    lemma_place_of(config, book, i);
    let (kind, w) = place_of(config, book, i);
    lemma_item_of_kind(config, book, kind, w);
}

/// Of two items among the actors under the first `n` indices, the earlier one stands for the
/// section under an earlier index.
pub proof fn lemma_resolved_in_order(
    config: &FlighthookConfig,
    book: Map<Seq<char>, SocketAddress>,
    kind: Seq<char>,
    indices: Seq<Seq<char>>,
    n: int,
    i: int,
    j: int,
)
    requires
        0 <= n <= indices.len(),
        0 <= i < j < resolve_indices(config, book, kind, indices, n).len(),
    ensures
        exists|a: int, b: int|
            0 <= a < b < n && resolve_indices(config, book, kind, indices, n)[i].id
                == spec_global_id(kind, #[trigger] indices[a]) && resolve_indices(
                config,
                book,
                kind,
                indices,
                n,
            )[j].id == spec_global_id(kind, #[trigger] indices[b]),
    decreases n,
{
    let now = resolve_indices(config, book, kind, indices, n);
    let before = resolve_indices(config, book, kind, indices, n - 1);
    if j < before.len() {
        lemma_resolved_in_order(config, book, kind, indices, n - 1, i, j);
        let (a, b) = choose|a: int, b: int|
            0 <= a < b < n - 1 && before[i].id == spec_global_id(kind, #[trigger] indices[a])
                && before[j].id == spec_global_id(kind, #[trigger] indices[b]);
        assert(now[i] == before[i]);
        assert(now[j] == before[j]);
        assert(0 <= a < b < n && now[i].id == spec_global_id(kind, indices[a]) && now[j].id
            == spec_global_id(kind, indices[b]));
    } else {
        lemma_resolved_sound(config, book, kind, indices, n - 1, i);
        let a = choose|m: int|
            0 <= m < n - 1 && before[i].id == spec_global_id(kind, #[trigger] indices[m])
                && spec_actor_for(config, book, kind, indices[m]) == Some(before[i].actor)
                && before[i].name == spec_name_for(config, kind, indices[m]);
        let b = n - 1;
        assert(now[i] == before[i]);
        assert(now[j].id == spec_global_id(kind, indices[b]));
        assert(0 <= a < b < n && now[i].id == spec_global_id(kind, indices[a]) && now[j].id
            == spec_global_id(kind, indices[b]));
    }
}

/// No two actors of one kind have the same id.
pub proof fn lemma_kind_ids_unique(
    config: &FlighthookConfig,
    book: Map<Seq<char>, SocketAddress>,
    kind: Seq<char>,
    i: int,
    j: int,
)
    requires
        config.valid(),
        is_kind(kind),
        0 <= i < j < resolve_kind_all(config, book, kind).len(),
    ensures
        resolve_kind_all(config, book, kind)[i].id != resolve_kind_all(config, book, kind)[j].id,
{
    lemma_kinds();
    let part = resolve_kind_all(config, book, kind);
    let ix = spec_indices(config, kind);
    lemma_resolved_in_order(config, book, kind, ix, ix.len() as int, i, j);
    let (a, b) = choose|a: int, b: int|
        0 <= a < b < ix.len() && part[i].id == spec_global_id(kind, #[trigger] ix[a])
            && part[j].id == spec_global_id(kind, #[trigger] ix[b]);
    config.mevo.lemma_keys_distinct();
    config.mock_monitor.lemma_keys_distinct();
    config.gspro.lemma_keys_distinct();
    config.random_club.lemma_keys_distinct();
    config.webserver.lemma_keys_distinct();
    assert(ix[a] != ix[b]);
    lemma_ids_differ(kind, ix[a], kind, ix[b]);
}

/// An actor's id is its own: no two items of the list of actors that a configuration asks
/// for have the same id.
pub proof fn lemma_ids_unique(
    config: &FlighthookConfig,
    book: Map<Seq<char>, SocketAddress>,
    i: int,
    j: int,
)
    requires
        config.valid(),
        0 <= i < j < spec_resolve_actors(config, book).len(),
    ensures
        spec_resolve_actors(config, book)[i].id != spec_resolve_actors(config, book)[j].id,
{
    lemma_place_of(config, book, i);
    lemma_place_of(config, book, j);
    let (kind_i, wi) = place_of(config, book, i);
    let (kind_j, wj) = place_of(config, book, j);
    lemma_item_of_kind(config, book, kind_i, wi);
    lemma_item_of_kind(config, book, kind_j, wj);
    if kind_i == kind_j {
        lemma_kinds();
        assert(wi < wj);
        lemma_kind_ids_unique(config, book, kind_i, wi, wj);
    }
}

/// The id is that of a section of the configuration: a kind, a dot, and an index under which
/// the configuration holds a section of that kind.
pub open spec fn is_section_id(config: &FlighthookConfig, id: Seq<char>) -> bool {
    split_at_dot(id) is Some && is_kind(split_at_dot(id)->Some_0.0) && spec_indices(
        config,
        split_at_dot(id)->Some_0.0,
    ).contains(split_at_dot(id)->Some_0.1)
}

/// The display name of the section with the id `id`.
pub open spec fn spec_name_of(config: &FlighthookConfig, id: Seq<char>) -> Seq<char> {
    spec_name_for(config, split_at_dot(id)->Some_0.0, split_at_dot(id)->Some_0.1)
}

/// The names in `base`, and over them the names of the sections of the kind `kind` under the
/// first `n` of the indices `indices`, each under its id.
pub open spec fn names_upto(
    config: &FlighthookConfig,
    kind: Seq<char>,
    indices: Seq<Seq<char>>,
    n: int,
    base: Map<Seq<char>, Seq<char>>,
) -> Map<Seq<char>, Seq<char>>
    decreases n,
{
    if n <= 0 {
        base
    } else {
        names_upto(config, kind, indices, n - 1, base).insert(
            spec_global_id(kind, indices[n - 1]),
            spec_name_for(config, kind, indices[n - 1]),
        )
    }
}

/// The names in `base`, and over them the names of all sections of the kind `kind`.
pub open spec fn names_of(
    config: &FlighthookConfig,
    kind: Seq<char>,
    base: Map<Seq<char>, Seq<char>>,
) -> Map<Seq<char>, Seq<char>> {
    names_upto(
        config,
        kind,
        spec_indices(config, kind),
        spec_indices(config, kind).len() as int,
        base,
    )
}

/// The display names of all sections of the configuration, each under its id.
pub open spec fn spec_actor_names(config: &FlighthookConfig) -> Map<Seq<char>, Seq<char>> {
    names_of(
        config,
        "webserver"@,
        names_of(
            config,
            "random_club"@,
            names_of(
                config,
                "gspro"@,
                names_of(config, "mock_monitor"@, names_of(config, "mevo"@, Map::empty())),
            ),
        ),
    )
}

fn names_of_kind(config: &FlighthookConfig, kind: &str, names: &mut StrMap<String>)
    ensures
        telemetry_text(*final(names)) == names_of(config, kind@, telemetry_text(*old(names))),
{
    let keys = indices(config, kind);
    let ghost all = spec_indices(config, kind@);
    let ghost base = telemetry_text(*names);
    let mut j: usize = 0;
    while j < keys.len()
        invariant
            j <= keys@.len(),
            all == spec_indices(config, kind@),
            keys@.len() == all.len(),
            forall|i: int| 0 <= i < keys@.len() ==> (#[trigger] keys@[i])@ == all[i],
            telemetry_text(*names) == names_upto(config, kind@, all, j as int, base),
        decreases keys@.len() - j,
    {
        let index = &keys[j];
        assert(index@ == all[j as int]);
        let id = global_id(kind, index.as_str());
        let name = name_for(config, kind, index.as_str());
        put_text(names, id.as_str(), name);
        j = j + 1;
    }
}

/// Lists the display names of all sections of the configuration, each under the id of its
/// actor, whether or not its address can be read.
pub fn actor_names(config: &FlighthookConfig) -> (names: StrMap<String>)
    ensures
        telemetry_text(names) == spec_actor_names(config),
{
    let mut names = new_telemetry();
    names_of_kind(config, "mevo", &mut names);
    names_of_kind(config, "mock_monitor", &mut names);
    names_of_kind(config, "gspro", &mut names);
    names_of_kind(config, "random_club", &mut names);
    names_of_kind(config, "webserver", &mut names);
    names
}

/// `x` is one of the first `n` of `indices`.
pub open spec fn among(indices: Seq<Seq<char>>, n: int, x: Seq<char>) -> bool {
    exists|m: int| 0 <= m < n && m < indices.len() && #[trigger] indices[m] == x
}

/// The id is of the kind `kind`, with one of the first `n` of `indices` as its index.
pub open spec fn id_among(id: Seq<char>, kind: Seq<char>, indices: Seq<Seq<char>>, n: int) -> bool {
    split_at_dot(id) is Some && split_at_dot(id)->Some_0.0 == kind && among(
        indices,
        n,
        split_at_dot(id)->Some_0.1,
    )
}

/// What the names over `base` hold: what `base` holds, and each id of the kind under one of
/// the first `n` indices, with the display name of its section.
pub proof fn lemma_names_upto(
    config: &FlighthookConfig,
    kind: Seq<char>,
    indices: Seq<Seq<char>>,
    n: int,
    base: Map<Seq<char>, Seq<char>>,
    id: Seq<char>,
)
    requires
        0 <= n <= indices.len(),
        no_dot(kind),
    ensures
        names_upto(config, kind, indices, n, base).contains_key(id) <==> base.contains_key(id)
            || id_among(id, kind, indices, n),
        names_upto(config, kind, indices, n, base).contains_key(id) ==> names_upto(
            config,
            kind,
            indices,
            n,
            base,
        )[id] == (if id_among(id, kind, indices, n) {
            spec_name_of(config, id)
        } else {
            base[id]
        }),
    decreases n,
{
    if n > 0 {
        lemma_names_upto(config, kind, indices, n - 1, base, id);
        let last = indices[n - 1];
        let last_id = spec_global_id(kind, last);
        lemma_split_global_id(kind, last);
        if id == last_id {
            assert(indices[n - 1] == last);
            assert(among(indices, n, last));
        } else {
            if id_among(id, kind, indices, n) {
                let x = split_at_dot(id)->Some_0.1;
                let m = choose|m: int| 0 <= m < n && m < indices.len() && #[trigger] indices[m]
                    == x;
                lemma_split_rejoin(id);
                assert(m != n - 1);
                assert(among(indices, n - 1, x));
            }
            if id_among(id, kind, indices, n - 1) {
                let x = split_at_dot(id)->Some_0.1;
                let m = choose|m: int|
                    0 <= m < n - 1 && m < indices.len() && #[trigger] indices[m] == x;
                assert(among(indices, n, x));
            }
        }
    }
}

/// The names hold exactly the ids of the sections of the configuration, each with the
/// display name of its section.
pub proof fn lemma_actor_names(config: &FlighthookConfig, id: Seq<char>)
    ensures
        spec_actor_names(config).contains_key(id) <==> is_section_id(config, id),
        spec_actor_names(config).contains_key(id) ==> spec_actor_names(config)[id] == spec_name_of(
            config,
            id,
        ),
{
    lemma_kinds();
    let b0 = Map::<Seq<char>, Seq<char>>::empty();
    let b1 = names_of(config, "mevo"@, b0);
    let b2 = names_of(config, "mock_monitor"@, b1);
    let b3 = names_of(config, "gspro"@, b2);
    let b4 = names_of(config, "random_club"@, b3);
    let i1 = spec_indices(config, "mevo"@);
    let i2 = spec_indices(config, "mock_monitor"@);
    let i3 = spec_indices(config, "gspro"@);
    let i4 = spec_indices(config, "random_club"@);
    let i5 = spec_indices(config, "webserver"@);
    lemma_names_upto(config, "mevo"@, i1, i1.len() as int, b0, id);
    lemma_names_upto(config, "mock_monitor"@, i2, i2.len() as int, b1, id);
    lemma_names_upto(config, "gspro"@, i3, i3.len() as int, b2, id);
    lemma_names_upto(config, "random_club"@, i4, i4.len() as int, b3, id);
    lemma_names_upto(config, "webserver"@, i5, i5.len() as int, b4, id);
    if split_at_dot(id) is Some {
        let k = split_at_dot(id)->Some_0.0;
        let x = split_at_dot(id)->Some_0.1;
        let ix = spec_indices(config, k);
        if ix.contains(x) {
            let m = ix.index_of(x);
            assert(0 <= m < ix.len() && ix[m] == x);
            assert(among(ix, ix.len() as int, x));
        }
        if among(ix, ix.len() as int, x) {
            let m = choose|m: int| 0 <= m < ix.len() && #[trigger] ix[m] == x;
            assert(ix.contains(x));
        }
    }
}

} // verus!
