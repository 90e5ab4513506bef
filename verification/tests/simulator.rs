use flighthook::actors::gspro::api::{BallData, ClubData};
use flighthook::actors::gspro::{on_connected, on_stream_end, StreamEnd};
use flighthook::config::{ConfigSource, LegacyFlighthookConfig};
use flighthook::{
    load, ActorStatus, AlertLevel, FlighthookConfig, FlighthookEvent, GsProMessage, Scalar,
    SessionConfig, ShotDetectionMode, StrMap, UnitSystem, WebserverSection,
};

fn s(x: f64) -> Scalar {
    Scalar::from_bits(x.to_bits())
}

fn ball() -> BallData {
    BallData {
        speed: s(118.6),
        spin_axis: s(0.8),
        total_spin: s(5500.6),
        back_spin: s(5500.0),
        side_spin: s(80.0),
        hla: s(0.8),
        vla: s(17.0),
        carry_distance: Some(s(169.5)),
    }
}

fn alert(e: &FlighthookEvent) -> (AlertLevel, &str) {
    match e {
        FlighthookEvent::Alert(a) => (a.level, a.message.as_str()),
        _ => panic!("no alert"),
    }
}

fn status(e: &FlighthookEvent) -> (ActorStatus, usize) {
    match e {
        FlighthookEvent::ActorStatus(st) => (st.status, st.telemetry.len()),
        _ => panic!("no status"),
    }
}

#[test]
fn a_shot_report_carries_the_shot_and_says_that_the_monitor_was_ready() {
    let club = ClubData {
        speed: s(80.5),
        angle_of_attack: s(-4.0),
        face_to_target: s(0.5),
        loft: s(22.0),
        path: s(0.3),
    };
    let m = GsProMessage::shot_report(7, ball(), Some(club));
    assert_eq!(m.device_id, "Flighthook");
    assert_eq!(m.units, "Yards");
    assert_eq!(m.api_version, "1");
    assert_eq!(m.shot_number, 7);
    assert_eq!(m.ball_data, ball());
    assert_eq!(m.club_data, club);
    assert!(m.shot_data_options.contains_ball_data);
    assert!(m.shot_data_options.contains_club_data);
    assert!(m.shot_data_options.launch_monitor_is_ready);
    assert!(m.shot_data_options.launch_monitor_ball_detected);
    assert!(!m.shot_data_options.is_heart_beat);
}

#[test]
fn a_shot_report_without_club_data_says_so() {
    let m = GsProMessage::shot_report(-3, ball(), None);
    assert_eq!(m.shot_number, -3);
    assert!(m.shot_data_options.contains_ball_data);
    assert!(!m.shot_data_options.contains_club_data);
    assert_eq!(m.club_data.speed, Scalar::zero());
    assert_eq!(m.club_data.loft, Scalar::zero());
    assert_eq!(m.club_data.path, Scalar::zero());
    assert!(!m.shot_data_options.is_heart_beat);
}

#[test]
fn a_closed_connection_is_reported_and_the_bridge_reconnects() {
    let out = on_stream_end(&StreamEnd::Closed);
    assert_eq!(out.len(), 2);
    assert_eq!(alert(&out[0]), (AlertLevel::Warn, "GSPro closed the connection"));
    assert_eq!(status(&out[1]), (ActorStatus::Reconnecting, 0));
    assert!(out.iter().all(|e| !matches!(
        e,
        FlighthookEvent::Alert(a) if a.level == AlertLevel::Error
    )));
}

#[test]
fn a_failed_read_and_a_failed_write_are_reported() {
    let out = on_stream_end(&StreamEnd::ReadFailed("broken pipe".to_string()));
    assert_eq!(out.len(), 3);
    assert_eq!(alert(&out[0]), (AlertLevel::Warn, "GSPro read error: broken pipe"));
    assert_eq!(
        alert(&out[1]),
        (AlertLevel::Error, "GSPro connection failed: I/O error: broken pipe")
    );
    assert_eq!(status(&out[2]), (ActorStatus::Reconnecting, 0));

    let out = on_stream_end(&StreamEnd::Failed("connection refused".to_string()));
    assert_eq!(out.len(), 2);
    assert_eq!(
        alert(&out[0]),
        (AlertLevel::Error, "GSPro connection failed: I/O error: connection refused")
    );
    assert_eq!(status(&out[1]), (ActorStatus::Reconnecting, 0));

    let up = on_connected();
    assert_eq!(up.len(), 1);
    assert_eq!(status(&up[0]), (ActorStatus::Connected, 0));
}

#[test]
fn each_mode_has_its_index_on_the_device() {
    assert_eq!(SessionConfig::mode_index(ShotDetectionMode::Full), 9);
    assert_eq!(SessionConfig::mode_index(ShotDetectionMode::Putting), 3);
    assert_eq!(SessionConfig::mode_index(ShotDetectionMode::Chipping), 5);
    assert_eq!(SessionConfig::mode_label(&ShotDetectionMode::Full), "outdoor(9)");
    assert_eq!(SessionConfig::mode_label(&ShotDetectionMode::Putting), "putting(3)");
    assert_eq!(SessionConfig::mode_label(&ShotDetectionMode::Chipping), "chipping(5)");
}

#[test]
fn a_file_that_cannot_be_understood_is_never_overwritten() {
    let unparseable = load(ConfigSource::Unparseable);
    assert!(!unparseable.persist);
    assert_eq!(unparseable.config.mevo.len(), 1);
    assert_eq!(unparseable.config.webserver.get("0").unwrap().bind, "0.0.0.0:3030");
    let unreadable = load(ConfigSource::Unreadable);
    assert!(!unreadable.persist);
    assert_eq!(unreadable.config.gspro.get("0").unwrap().name, "Local GSPro");
    let missing = load(ConfigSource::Missing);
    assert!(missing.persist);
    assert_eq!(missing.config.default_units, UnitSystem::Imperial);
    assert_eq!(missing.config.mevo.get("0").unwrap().name, "Mevo WiFi");
}

#[test]
fn a_current_configuration_is_taken_as_it_is() {
    let mut config = FlighthookConfig::empty(UnitSystem::Metric);
    config.webserver.insert(
        "7".to_string(),
        WebserverSection { name: "W".to_string(), bind: "127.0.0.1:1".to_string() },
    );
    let loaded = load(ConfigSource::Current(config));
    assert!(!loaded.persist);
    assert_eq!(loaded.config.default_units, UnitSystem::Metric);
    assert_eq!(loaded.config.webserver.key_list(), vec!["7".to_string()]);
    assert_eq!(loaded.config.mevo.len(), 0);
}

#[test]
fn an_older_configuration_is_migrated_and_written_back() {
    let legacy = LegacyFlighthookConfig {
        default_units: UnitSystem::Metric,
        webserver: Some(WebserverSection { name: String::new(), bind: "0.0.0.0:80".to_string() }),
        mevo: StrMap::new(),
        mock_monitor: StrMap::new(),
        gspro: StrMap::new(),
        random_club: StrMap::new(),
    };
    let loaded = load(ConfigSource::Legacy(legacy));
    assert!(loaded.persist);
    assert_eq!(loaded.config.default_units, UnitSystem::Metric);
    assert_eq!(loaded.config.webserver.len(), 1);
    let ws = loaded.config.webserver.get("0").unwrap();
    assert_eq!(ws.name, "Web Server");
    assert_eq!(ws.bind, "0.0.0.0:80");

    let named = LegacyFlighthookConfig {
        default_units: UnitSystem::Imperial,
        webserver: Some(WebserverSection { name: "Mine".to_string(), bind: "x".to_string() }),
        mevo: StrMap::new(),
        mock_monitor: StrMap::new(),
        gspro: StrMap::new(),
        random_club: StrMap::new(),
    };
    assert_eq!(named.into_current().webserver.get("0").unwrap().name, "Mine");

    let none = LegacyFlighthookConfig {
        default_units: UnitSystem::Imperial,
        webserver: None,
        mevo: StrMap::new(),
        mock_monitor: StrMap::new(),
        gspro: StrMap::new(),
        random_club: StrMap::new(),
    };
    let loaded = load(ConfigSource::Legacy(none));
    assert!(loaded.persist);
    assert_eq!(loaded.config.webserver.len(), 0);
}
