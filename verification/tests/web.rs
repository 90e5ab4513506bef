use flighthook::actors::web::routes::{conversion_units, requested_units};
use flighthook::actors::web::ws::{handle_ws_command, parse_start_message, ws_source_id};
use flighthook::actors::web::web_telemetry;
use flighthook::event::{new_telemetry, put_text};
use flighthook::{
    actor_names, apply_bus_event, default_limit, new_actor, ActorStatus, BallFlight, Club,
    ConvertQuery, FlighthookConfig, FlighthookEvent, GameStateCommandEvent, Scalar, ShotData,
    ShotDetectionMode, ShotsQuery, UnitSystem, Velocity, WebProjection,
};

fn none() -> flighthook::StrMap<String> {
    flighthook::StrMap::new()
}

fn outcome(restarted: &[&str], stopped: &[&str], started: &[&str]) -> FlighthookEvent {
    let list = |ids: &[&str]| ids.iter().map(|x| x.to_string()).collect::<Vec<String>>();
    FlighthookEvent::ConfigOutcome(flighthook::ConfigOutcome {
        request_id: "0badc0de".to_string(),
        restarted: list(restarted),
        stopped: list(stopped),
        started: list(started),
    })
}

fn shot(number: i32) -> ShotData {
    ShotData {
        source: "mevo.0".to_string(),
        shot_number: number,
        ball: BallFlight {
            launch_speed: Velocity::MetersPerSecond(Scalar::from_bits(53.0f64.to_bits())),
            launch_elevation: Scalar::zero(),
            launch_azimuth: Scalar::zero(),
            carry_distance: None,
            total_distance: None,
            max_height: None,
            flight_time: None,
            roll_distance: None,
            backspin_rpm: None,
            sidespin_rpm: None,
        },
        club: None,
        spin: None,
        estimated: false,
    }
}

#[test]
fn an_unknown_actor_is_shown_as_disconnected() {
    let a = new_actor("Mevo".to_string());
    assert_eq!(a.name, "Mevo");
    assert_eq!(a.status, ActorStatus::Disconnected);
    assert!(a.telemetry.is_empty());
    assert_eq!(default_limit(), 50);
}

#[test]
fn status_reports_replace_what_was_known() {
    let mut p = WebProjection::new();
    p.on_name("mevo.0", "Mevo".to_string());
    let mut t = new_telemetry();
    put_text(&mut t, "battery_pct", "80".to_string());
    apply_bus_event(&mut p, &none(), "mevo.0", &FlighthookEvent::status(ActorStatus::Connected, t));
    let a = p.actors.get("mevo.0").unwrap();
    assert_eq!(a.name, "Mevo");
    assert_eq!(a.status, ActorStatus::Connected);
    assert_eq!(a.telemetry.get("battery_pct").unwrap(), "80");
    apply_bus_event(
        &mut p, &none(),
        "mevo.0",
        &FlighthookEvent::status(ActorStatus::Reconnecting, new_telemetry()),
    );
    let a = p.actors.get("mevo.0").unwrap();
    assert_eq!(a.status, ActorStatus::Reconnecting);
    assert!(a.telemetry.is_empty());
    apply_bus_event(
        &mut p, &none(),
        "ws.1",
        &FlighthookEvent::status(ActorStatus::Connected, new_telemetry()),
    );
    assert_eq!(p.actors.get("ws.1").unwrap().name, "");
}

#[test]
fn player_and_club_are_noted_for_known_actors_only() {
    let mut p = WebProjection::new();
    apply_bus_event(&mut p, &none(), "gspro.0", &FlighthookEvent::set_club(Club::Iron5));
    assert!(p.actors.get("gspro.0").is_none());
    p.on_name("gspro.0", "GSPro".to_string());
    apply_bus_event(&mut p, &none(), "gspro.0", &FlighthookEvent::set_club(Club::Iron5));
    apply_bus_event(&mut p, &none(), "gspro.0", &FlighthookEvent::set_player("RH".to_string()));
    let a = p.actors.get("gspro.0").unwrap();
    assert_eq!(a.telemetry.get("club").unwrap(), "5I");
    assert_eq!(a.telemetry.get("handed").unwrap(), "RH");
    apply_bus_event(&mut p, &none(), "gspro.0", &FlighthookEvent::set_mode(ShotDetectionMode::Full));
    assert_eq!(p.actors.get("gspro.0").unwrap().telemetry.len(), 2);
}

#[test]
fn the_ring_keeps_the_last_thousand_shots() {
    let mut p = WebProjection::new();
    for n in 0..1005 {
        apply_bus_event(&mut p, &none(), "mevo.0", &FlighthookEvent::shot(shot(n)));
    }
    assert_eq!(p.shots.len(), 1000);
    assert_eq!(p.shots.front().unwrap().shot_number, 5);
    assert_eq!(p.shots.back().unwrap().shot_number, 1004);
    let last = p.last_shots(default_limit());
    assert_eq!(last.len(), 50);
    assert_eq!(last[0].shot_number, 955);
    assert_eq!(last[49].shot_number, 1004);
    assert_eq!(p.last_shots(0).len(), 0);
    assert_eq!(p.last_shots(5000).len(), 1000);
    let mut few = WebProjection::new();
    few.on_shot(shot(1));
    few.on_shot(shot(2));
    let got: Vec<i32> = few.last_shots(50).iter().map(|s| s.shot_number).collect();
    assert_eq!(got, vec![1, 2]);
}

#[test]
fn many_status_reports_leave_the_latest_state() {
    let mut p = WebProjection::new();
    for n in 0..2000u32 {
        let mut t = new_telemetry();
        put_text(&mut t, "n", n.to_string());
        let status = if n % 2 == 0 { ActorStatus::Connected } else { ActorStatus::Starting };
        apply_bus_event(&mut p, &none(), "mevo.0", &FlighthookEvent::status(status, t));
    }
    assert_eq!(p.actors.len(), 1);
    let a = p.actors.get("mevo.0").unwrap();
    assert_eq!(a.status, ActorStatus::Starting);
    assert_eq!(a.telemetry.get("n").unwrap(), "1999");
}

#[test]
fn a_stopped_actor_disappears_from_the_picture() {
    let config = FlighthookConfig::default();
    let mut p = WebProjection::new();
    let names = actor_names(&config);
    p.on_config_outcome(&names, &vec![], &vec![], &vec!["mevo.0".to_string()]);
    assert_eq!(p.actors.len(), 3);
    assert_eq!(p.actors.get("mevo.0").unwrap().name, "Mevo WiFi");
    apply_bus_event(
        &mut p, &none(),
        "mevo.0",
        &FlighthookEvent::status(ActorStatus::Connected, new_telemetry()),
    );
    let mut without = FlighthookConfig::default();
    without.mevo.remove("0");
    let names = actor_names(&without);
    p.on_config_outcome(&names, &vec![], &vec![], &vec![]);
    assert!(p.actors.contains_key("mevo.0"));
    p.on_config_outcome(&names, &vec![], &vec!["mevo.0".to_string()], &vec![]);
    assert!(!p.actors.contains_key("mevo.0"));
    assert_eq!(p.actors.len(), 2);
    assert_eq!(p.actors.get("gspro.0").unwrap().status, ActorStatus::Disconnected);
}

#[test]
fn the_web_actor_reports_its_own_numbers() {
    let t = web_telemetry("0.0.0.0:3030", 2, 17, ActorStatus::Connected);
    assert_eq!(t.len(), 3);
    assert_eq!(t.get("bind").unwrap(), "0.0.0.0:3030");
    assert_eq!(t.get("websockets").unwrap(), "2");
    assert_eq!(t.get("requests").unwrap(), "17");
    let t = web_telemetry("0.0.0.0:3030", 0, 0, ActorStatus::Disconnected);
    assert_eq!(t.get("error").unwrap(), "bind failed");
}

#[test]
fn requests_name_their_units() {
    let q = ShotsQuery { limit: 10, units: Some("metric".to_string()) };
    assert_eq!(requested_units(&q), Some(UnitSystem::Metric));
    let q = ShotsQuery { limit: 10, units: Some("stones".to_string()) };
    assert_eq!(requested_units(&q), None);
    let q = ShotsQuery { limit: 10, units: None };
    assert_eq!(requested_units(&q), None);
    assert_eq!(
        conversion_units(&ConvertQuery { units: "imperial".to_string() }),
        Some(UnitSystem::Imperial)
    );
    assert_eq!(conversion_units(&ConvertQuery { units: "".to_string() }), None);
}

#[test]
fn a_socket_opens_with_a_start_message() {
    assert_eq!(parse_start_message("start", "My Dashboard"), Some("My Dashboard".to_string()));
    assert_eq!(parse_start_message("start", ""), Some("anonymous".to_string()));
    assert_eq!(parse_start_message("init", "x"), None);
    assert_eq!(ws_source_id("0badc0de"), "ws.0badc0de");
}

#[test]
fn a_socket_command_sets_the_mode() {
    let mode = |e: Option<FlighthookEvent>| match e {
        Some(FlighthookEvent::GameStateCommand(c)) => match c.event {
            GameStateCommandEvent::SetMode { mode } => Some(mode),
            _ => None,
        },
        _ => None,
    };
    assert_eq!(mode(handle_ws_command("mode", Some("putting"))), Some(ShotDetectionMode::Putting));
    assert_eq!(mode(handle_ws_command("mode", Some("full"))), Some(ShotDetectionMode::Full));
    assert!(handle_ws_command("mode", Some("driving")).is_none());
    assert!(handle_ws_command("mode", None).is_none());
    assert!(handle_ws_command("club", Some("putting")).is_none());
}

#[test]
fn the_mode_endpoint_speaks_as_web() {
    let m = flighthook::actors::web::routes::mode_message(ShotDetectionMode::Chipping);
    assert_eq!(m.source, "web");
    assert!(m.raw_payload.is_none());
    assert!(matches!(
        &m.event,
        FlighthookEvent::GameStateCommand(c)
            if matches!(c.event, GameStateCommandEvent::SetMode { mode } if mode == ShotDetectionMode::Chipping)
    ));
}

#[test]
fn a_settings_request_waits_for_the_outcome_under_its_id() {
    let mut config = FlighthookConfig::empty(UnitSystem::Metric);
    config.mock_monitor.insert(
        "0".to_string(),
        flighthook::MockMonitorSection { name: "M".to_string() },
    );
    let m = flighthook::actors::web::routes::replace_message("0badc0de", config);
    assert_eq!(m.source, "web");
    match &m.event {
        FlighthookEvent::ConfigCommand(c) => {
            assert_eq!(c.request_id.as_deref(), Some("0badc0de"));
            match &c.action {
                flighthook::ConfigAction::ReplaceAll { config } => {
                    assert_eq!(config.default_units, UnitSystem::Metric);
                    assert_eq!(config.mock_monitor.len(), 1);
                }
                _ => panic!("no replacement"),
            }
        }
        _ => panic!("no command"),
    }

    let outcome = |id: &str| {
        FlighthookEvent::ConfigOutcome(flighthook::ConfigOutcome {
            request_id: id.to_string(),
            restarted: vec!["mevo.0".to_string()],
            stopped: vec!["gspro.0".to_string(), "gspro.1".to_string()],
            started: vec!["webserver.0".to_string()],
        })
    };
    let reply = flighthook::actors::web::routes::settings_reply;
    let own = reply(&outcome("0badc0de"), "0badc0de").unwrap();
    assert_eq!(own.restarted, vec!["mevo.0".to_string()]);
    assert_eq!(own.stopped, vec!["gspro.0".to_string(), "gspro.1".to_string()]);
    assert!(reply(&outcome("0badc0df"), "0badc0de").is_none());
    assert!(reply(&outcome(""), "0badc0de").is_none());
    assert!(reply(&m.event, "0badc0de").is_none());
    let late = flighthook::actors::web::routes::settings_timeout();
    assert!(late.restarted.is_empty());
    assert!(late.stopped.is_empty());
}

#[test]
fn a_stopped_actor_stays_out_of_the_picture_until_it_is_started_again() {
    let config = FlighthookConfig::default();
    let mut p = WebProjection::new();
    let names = actor_names(&config);
    apply_bus_event(&mut p, &names, "system", &outcome(&[], &[], &["mevo.0", "gspro.0"]));
    apply_bus_event(
        &mut p,
        &names,
        "mevo.0",
        &FlighthookEvent::status(ActorStatus::Connected, new_telemetry()),
    );
    assert_eq!(p.actors.get("mevo.0").unwrap().status, ActorStatus::Connected);

    let mut without = FlighthookConfig::default();
    without.mevo.remove("0");
    let fewer = actor_names(&without);
    apply_bus_event(&mut p, &fewer, "system", &outcome(&[], &["mevo.0"], &[]));
    assert!(!p.actors.contains_key("mevo.0"));
    assert!(p.stopped.contains_key("mevo.0"));
    assert_eq!(p.actors.len(), 2);

    apply_bus_event(
        &mut p,
        &fewer,
        "mevo.0",
        &FlighthookEvent::status(ActorStatus::Disconnected, new_telemetry()),
    );
    assert!(!p.actors.contains_key("mevo.0"));
    apply_bus_event(&mut p, &fewer, "mevo.0", &FlighthookEvent::set_club(Club::Putter));
    assert!(!p.actors.contains_key("mevo.0"));
    apply_bus_event(
        &mut p,
        &fewer,
        "gspro.0",
        &FlighthookEvent::status(ActorStatus::Connected, new_telemetry()),
    );
    assert_eq!(p.actors.get("gspro.0").unwrap().status, ActorStatus::Connected);
    assert_eq!(p.actors.get("gspro.0").unwrap().name, "Local GSPro");
    assert_eq!(p.actors.len(), 2);

    apply_bus_event(&mut p, &names, "system", &outcome(&[], &[], &["mevo.0"]));
    assert!(!p.stopped.contains_key("mevo.0"));
    assert_eq!(p.actors.get("mevo.0").unwrap().status, ActorStatus::Disconnected);
    apply_bus_event(
        &mut p,
        &names,
        "mevo.0",
        &FlighthookEvent::status(ActorStatus::Starting, new_telemetry()),
    );
    assert_eq!(p.actors.get("mevo.0").unwrap().status, ActorStatus::Starting);
    assert_eq!(p.actors.get("mevo.0").unwrap().name, "Mevo WiFi");
}

#[test]
fn an_outcome_that_touched_no_actor_changes_nothing() {
    let config = FlighthookConfig::default();
    let names = actor_names(&config);
    let mut p = WebProjection::new();
    apply_bus_event(&mut p, &names, "system", &outcome(&[], &[], &[]));
    assert_eq!(p.actors.len(), 0);
    assert_eq!(p.stopped.len(), 0);
    apply_bus_event(&mut p, &names, "system", &outcome(&["mevo.0"], &[], &[]));
    assert_eq!(p.actors.len(), 3);
    assert_eq!(p.stopped.len(), 0);
}
