use flighthook::actors::reload::candidates;
use flighthook::actors::resolve::expected_actor;
use flighthook::{
    actor_names, apply_config_reload, resolve_actors, ActorSpec, AddressBook, Distance,
    FlighthookConfig, FlighthookEvent, GsProActor, GsProRouting, GsProSection, MevoActor,
    MevoSection, MockMonitorSection, PartialMode, RandomClubSection, ReconfigureOutcome,
    Registry, Scalar, SessionConfig, ShotDetectionMode, SocketAddress, StrMap, UnitSystem,
    WebActor, WebserverSection,
};

fn s(x: f64) -> Scalar {
    Scalar::from_bits(x.to_bits())
}

fn v4(a: u8, b: u8, c: u8, d: u8, port: u16) -> SocketAddress {
    SocketAddress::V4 { ip: u32::from_be_bytes([a, b, c, d]), port }
}

fn book() -> AddressBook {
    let mut book: AddressBook = StrMap::new();
    book.insert("192.168.2.1:5100".to_string(), v4(192, 168, 2, 1, 5100));
    book.insert("192.168.2.7:5100".to_string(), v4(192, 168, 2, 7, 5100));
    book.insert("127.0.0.1:921".to_string(), v4(127, 0, 0, 1, 921));
    book.insert("0.0.0.0:3030".to_string(), v4(0, 0, 0, 0, 3030));
    book.insert("0.0.0.0:8080".to_string(), v4(0, 0, 0, 0, 8080));
    book
}

fn mevo(address: Option<&str>) -> MevoSection {
    MevoSection {
        name: "Mevo".to_string(),
        address: address.map(|a| a.to_string()),
        ball_type: Some(0),
        tee_height: Some(Distance::Inches(s(1.5))),
        range: Some(Distance::Feet(s(8.0))),
        surface_height: Some(Distance::Inches(s(0.0))),
        track_pct: Some(s(80.0)),
        use_partial: Some(PartialMode::ChippingOnly),
    }
}

fn ids(list: &Vec<String>) -> Vec<&str> {
    list.iter().map(|x| x.as_str()).collect()
}

fn registry_ids(registry: &Registry) -> Vec<String> {
    let mut keys = registry.key_list();
    keys.sort();
    keys
}

fn started_from(config: &FlighthookConfig) -> Registry {
    let mut registry: Registry = StrMap::new();
    registry.insert("system".to_string(), ActorSpec::System);
    let out = apply_config_reload(&mut registry, config, &book(), None);
    assert!(out.stopped.is_empty());
    assert!(out.restarted.is_empty());
    registry
}

#[test]
fn the_default_configuration_resolves_to_three_actors() {
    let config = FlighthookConfig::default();
    let list = resolve_actors(&config, &book());
    let found: Vec<(&str, &str)> =
        list.iter().map(|r| (r.id.as_str(), r.name.as_str())).collect();
    assert_eq!(
        found,
        vec![("mevo.0", "Mevo WiFi"), ("gspro.0", "Local GSPro"), ("webserver.0", "Web Server")]
    );
    match &list[0].actor {
        ActorSpec::Mevo(a) => {
            assert_eq!(a.addr, v4(192, 168, 2, 1, 5100));
            assert_eq!(a.initial_mode, ShotDetectionMode::Full);
            assert_eq!(a.session_config, SessionConfig::default());
        }
        _ => panic!("no device"),
    }
    match &list[1].actor {
        ActorSpec::GsPro(a) => {
            assert_eq!(a.addr, v4(127, 0, 0, 1, 921));
            assert!(a.routing.full_monitor.is_none());
        }
        _ => panic!("no bridge"),
    }
    assert!(matches!(&list[2].actor, ActorSpec::Web(a) if a.addr == v4(0, 0, 0, 0, 3030)));
}

#[test]
fn a_section_with_an_unreadable_address_yields_no_actor() {
    let mut config = FlighthookConfig::empty(UnitSystem::Imperial);
    config.mevo.insert("0".to_string(), mevo(Some("not an address")));
    config.mevo.insert("1".to_string(), mevo(None));
    config.mock_monitor.insert("a".to_string(), MockMonitorSection { name: "Mock".to_string() });
    config.random_club.insert("b".to_string(), RandomClubSection { name: "Clubs".to_string() });
    config.webserver.insert(
        "0".to_string(),
        WebserverSection { name: "W".to_string(), bind: "nowhere".to_string() },
    );
    let list = resolve_actors(&config, &book());
    let found: Vec<&str> = list.iter().map(|r| r.id.as_str()).collect();
    assert_eq!(found, vec!["mevo.1", "mock_monitor.a", "random_club.b"]);
    assert!(expected_actor(&config, &book(), "mevo.0").is_none());
    assert!(expected_actor(&config, &book(), "mevo.1").is_some());
    assert!(expected_actor(&config, &book(), "mevo").is_none());
    assert!(expected_actor(&config, &book(), "system").is_none());
    assert!(expected_actor(&config, &book(), "radar.1").is_none());
    let names = actor_names(&config);
    assert_eq!(names.len(), 5);
    assert_eq!(names.get("mevo.0").unwrap(), "Mevo");
    assert_eq!(names.get("webserver.0").unwrap(), "W");
    assert_eq!(names.get("random_club.b").unwrap(), "Clubs");
}

#[test]
fn a_device_restarts_for_a_new_address_and_applies_new_settings() {
    let actor = MevoActor {
        addr: v4(192, 168, 2, 1, 5100),
        initial_mode: ShotDetectionMode::Full,
        session_config: SessionConfig::default(),
    };
    let mut config = FlighthookConfig::default();
    let same = actor.reconfigure("mevo.0", &config, &book());
    assert_eq!(same.outcome, ReconfigureOutcome::Applied);
    match same.announce {
        Some(FlighthookEvent::ConfigChanged(c)) => {
            assert_eq!(c.config, SessionConfig::default().to_config_event());
        }
        _ => panic!("no announcement"),
    }
    assert!(actor.reconfigure("mevo", &config, &book()).announce.is_none());
    assert_eq!(
        actor.reconfigure("mevo", &config, &book()).outcome,
        ReconfigureOutcome::NoChange
    );
    assert_eq!(
        actor.reconfigure("mevo.9", &config, &book()).outcome,
        ReconfigureOutcome::RestartRequired
    );
    config.mevo.insert("0".to_string(), mevo(Some("192.168.2.7:5100")));
    assert_eq!(
        actor.reconfigure("mevo.0", &config, &book()).outcome,
        ReconfigureOutcome::RestartRequired
    );
    config.mevo.insert("0".to_string(), mevo(Some("garbage")));
    assert_eq!(
        actor.reconfigure("mevo.0", &config, &book()).outcome,
        ReconfigureOutcome::RestartRequired
    );
    let mut changed = mevo(None);
    changed.use_partial = Some(PartialMode::Always);
    changed.track_pct = Some(s(75.0));
    config.mevo.insert("0".to_string(), changed);
    let applied = actor.reconfigure("mevo.0", &config, &book());
    assert_eq!(applied.outcome, ReconfigureOutcome::Applied);
    match applied.announce {
        Some(FlighthookEvent::ConfigChanged(c)) => {
            assert_eq!(c.config.use_partial, PartialMode::Always);
            assert_eq!(c.config.track_pct, s(75.0));
            assert_eq!(c.config.range, Distance::Feet(s(8.0)));
        }
        _ => panic!("no announcement"),
    }
}

#[test]
fn a_bridge_restarts_for_a_new_address_or_routing() {
    let actor = GsProActor { addr: v4(127, 0, 0, 1, 921), routing: GsProRouting::default() };
    let mut config = FlighthookConfig::default();
    assert_eq!(actor.reconfigure("gspro.0", &config, &book()), ReconfigureOutcome::NoChange);
    assert_eq!(
        actor.reconfigure("gspro.1", &config, &book()),
        ReconfigureOutcome::RestartRequired
    );
    let routed = GsProSection {
        name: "Local GSPro".to_string(),
        address: None,
        full_monitor: None,
        chipping_monitor: None,
        putting_monitor: Some("mevo.0".to_string()),
    };
    config.gspro.insert("0".to_string(), routed);
    assert_eq!(
        actor.reconfigure("gspro.0", &config, &book()),
        ReconfigureOutcome::RestartRequired
    );
    let web = WebActor { addr: v4(0, 0, 0, 0, 3030) };
    assert_eq!(web.reconfigure("webserver.0", &config, &book()), ReconfigureOutcome::NoChange);
    assert_eq!(web.reconfigure("web", &config, &book()), ReconfigureOutcome::NoChange);
    assert_eq!(
        web.reconfigure("webserver.1", &config, &book()),
        ReconfigureOutcome::RestartRequired
    );
    let other = WebActor { addr: v4(0, 0, 0, 0, 8080) };
    assert_eq!(
        other.reconfigure("webserver.0", &config, &book()),
        ReconfigureOutcome::RestartRequired
    );
    assert_eq!(
        ActorSpec::System.reconfigure("system", &config, &book()).outcome,
        ReconfigureOutcome::NoChange
    );
}

#[test]
fn a_first_reload_starts_every_actor_and_leaves_the_system_actor() {
    let config = FlighthookConfig::default();
    let mut registry: Registry = StrMap::new();
    registry.insert("system".to_string(), ActorSpec::System);
    let out = apply_config_reload(&mut registry, &config, &book(), None);
    assert_eq!(ids(&out.started), vec!["mevo.0", "gspro.0", "webserver.0"]);
    assert!(out.stopped.is_empty());
    assert!(out.restarted.is_empty());
    assert!(out.applied.is_empty());
    assert_eq!(registry_ids(&registry), vec!["gspro.0", "mevo.0", "system", "webserver.0"]);
    let again = apply_config_reload(&mut registry, &config, &book(), None);
    assert!(again.started.is_empty());
    assert!(again.stopped.is_empty());
    assert!(again.restarted.is_empty());
    assert_eq!(ids(&again.applied), vec!["mevo.0"]);
    assert_eq!(again.announcements.len(), 1);
    assert_eq!(again.announcements[0].source, "mevo.0");
    assert_eq!(registry.len(), 4);
}

#[test]
fn a_new_address_restarts_the_device() {
    let mut config = FlighthookConfig::default();
    let mut registry = started_from(&config);
    config.mevo.insert("0".to_string(), mevo(Some("192.168.2.7:5100")));
    let out = apply_config_reload(&mut registry, &config, &book(), None);
    assert_eq!(ids(&out.restarted), vec!["mevo.0"]);
    assert!(out.stopped.is_empty());
    assert!(out.started.is_empty());
    assert!(out.applied.is_empty());
    match registry.get("mevo.0") {
        Some(ActorSpec::Mevo(a)) => assert_eq!(a.addr, v4(192, 168, 2, 7, 5100)),
        _ => panic!("no device"),
    }
}

#[test]
fn new_settings_are_applied_and_announced() {
    let mut config = FlighthookConfig::default();
    let mut registry = started_from(&config);
    let mut changed = mevo(Some("192.168.2.1:5100"));
    changed.ball_type = Some(1);
    config.mevo.insert("0".to_string(), changed);
    let out = apply_config_reload(&mut registry, &config, &book(), None);
    assert_eq!(ids(&out.applied), vec!["mevo.0"]);
    assert!(out.restarted.is_empty());
    assert_eq!(out.announcements.len(), 1);
    assert_eq!(out.announcements[0].source, "mevo.0");
    assert!(matches!(
        &out.announcements[0].event,
        FlighthookEvent::ConfigChanged(c) if c.config.ball_type == 1
    ));
}

#[test]
fn a_removed_section_stops_its_actor() {
    let mut config = FlighthookConfig::default();
    let mut registry = started_from(&config);
    config.mevo.remove("0");
    let out = apply_config_reload(&mut registry, &config, &book(), Some("mevo.0"));
    assert_eq!(ids(&out.stopped), vec!["mevo.0"]);
    assert!(out.started.is_empty());
    assert!(!registry.contains_key("mevo.0"));
    assert_eq!(registry_ids(&registry), vec!["gspro.0", "system", "webserver.0"]);
}

#[test]
fn a_scoped_reload_touches_one_actor_only() {
    let mut config = FlighthookConfig::default();
    let mut registry = started_from(&config);
    config.mevo.insert("0".to_string(), mevo(Some("192.168.2.7:5100")));
    config.gspro.remove("0");
    config.mock_monitor.insert("0".to_string(), MockMonitorSection { name: "M".to_string() });
    let out = apply_config_reload(&mut registry, &config, &book(), Some("mock_monitor.0"));
    assert_eq!(ids(&out.started), vec!["mock_monitor.0"]);
    assert!(out.restarted.is_empty());
    assert!(out.stopped.is_empty());
    assert!(registry.contains_key("gspro.0"));
    assert!(matches!(
        registry.get("mevo.0"),
        Some(ActorSpec::Mevo(a)) if a.addr == v4(192, 168, 2, 1, 5100)
    ));
    let none = apply_config_reload(&mut registry, &config, &book(), Some("system"));
    assert!(none.stopped.is_empty());
    assert!(registry.contains_key("system"));
    let unknown = apply_config_reload(&mut registry, &config, &book(), Some("radar.7"));
    assert!(unknown.started.is_empty() && unknown.stopped.is_empty());
    let rest = apply_config_reload(&mut registry, &config, &book(), None);
    assert_eq!(ids(&rest.stopped), vec!["gspro.0"]);
    assert_eq!(ids(&rest.restarted), vec!["mevo.0"]);
    assert!(rest.started.is_empty());
    assert_eq!(
        registry_ids(&registry),
        vec!["mevo.0", "mock_monitor.0", "system", "webserver.0"]
    );
}

#[test]
fn after_a_reload_the_registry_holds_what_the_configuration_asks_for() {
    let mut before = FlighthookConfig::default();
    before.mock_monitor.insert("x".to_string(), MockMonitorSection { name: "M".to_string() });
    before.mevo.insert("1".to_string(), mevo(Some("192.168.2.7:5100")));
    let mut registry = started_from(&before);
    let mut after = FlighthookConfig::empty(UnitSystem::Metric);
    after.mevo.insert("1".to_string(), mevo(Some("192.168.2.1:5100")));
    after.mevo.insert("2".to_string(), mevo(Some("unreadable")));
    after.random_club.insert("x".to_string(), RandomClubSection { name: "R".to_string() });
    let listed = candidates(&registry, &after, &book());
    assert_eq!(listed.len(), 7);
    let out = apply_config_reload(&mut registry, &after, &book(), None);
    let mut expected: Vec<String> =
        resolve_actors(&after, &book()).into_iter().map(|r| r.id).collect();
    expected.push("system".to_string());
    expected.sort();
    assert_eq!(registry_ids(&registry), expected);
    assert_eq!(registry_ids(&registry), vec!["mevo.1", "random_club.x", "system"]);
    let mut stopped = out.stopped.clone();
    stopped.sort();
    assert_eq!(stopped, vec!["gspro.0", "mevo.0", "mock_monitor.x", "webserver.0"]);
    assert_eq!(ids(&out.restarted), vec!["mevo.1"]);
    assert_eq!(ids(&out.started), vec!["random_club.x"]);
}

#[test]
fn a_section_without_an_address_takes_the_default() {
    let named = mevo(Some("10.0.0.9:5100"));
    assert_eq!(flighthook::actors::resolve::mevo_address(&named), "10.0.0.9:5100");
    assert_eq!(flighthook::actors::resolve::mevo_address(&mevo(None)), "192.168.2.1:5100");
    let mut bridge = GsProSection {
        name: "G".to_string(),
        address: None,
        full_monitor: None,
        chipping_monitor: None,
        putting_monitor: None,
    };
    assert_eq!(flighthook::actors::resolve::gspro_address(&bridge), "127.0.0.1:921");
    bridge.address = Some("192.168.1.20:921".to_string());
    assert_eq!(flighthook::actors::resolve::gspro_address(&bridge), "192.168.1.20:921");
}

#[test]
fn no_two_actors_of_a_configuration_share_an_id() {
    let mut config = FlighthookConfig::default();
    config.mevo.insert("1".to_string(), mevo(None));
    config.mevo.insert("0.1".to_string(), mevo(None));
    config.mock_monitor.insert("0".to_string(), MockMonitorSection { name: "M".to_string() });
    config.mock_monitor.insert("1".to_string(), MockMonitorSection { name: "N".to_string() });
    config.random_club.insert("0".to_string(), RandomClubSection { name: "R".to_string() });
    let list = resolve_actors(&config, &book());
    let mut seen: Vec<&str> = list.iter().map(|r| r.id.as_str()).collect();
    assert_eq!(seen.len(), 8);
    seen.sort();
    seen.dedup();
    assert_eq!(seen.len(), 8);
    assert!(seen.contains(&"mevo.0.1"));
}
