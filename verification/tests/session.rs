use flighthook::actors::backoff::next_backoff;
use flighthook::actors::mevo::accumulator::{DeviceMessage, FlightResultV1};
use flighthook::actors::mevo::client::{
    is_transient, telemetry_state, ConnErrorKind, ConnFailure, DeviceStatus,
};
use flighthook::actors::mevo::session::{on_session_failed, BusPoll, Next, Outgoing};
use flighthook::{
    ActorStatus, AlertLevel, DeviceSession, Distance, FlighthookEvent, HandshakeInfo,
    LaunchMonitorEvent, MevoConfigEvent, MevoSection, PartialMode, Scalar, SessionConfig,
    ShotDetectionMode,
};

fn s(x: f64) -> Scalar {
    Scalar::from_bits(x.to_bits())
}

fn failure(kind: ConnErrorKind) -> ConnFailure {
    ConnFailure { kind, text: "recv timed out".to_string(), detail: "Timeout".to_string() }
}

fn status_of(o: &Outgoing) -> (ActorStatus, Vec<(String, String)>) {
    match &o.event {
        FlighthookEvent::ActorStatus(st) => {
            let mut pairs = Vec::new();
            for i in 0..st.telemetry.len() {
                pairs.push((st.telemetry.key_at(i).clone(), st.telemetry.value_at(i).clone()));
            }
            (st.status, pairs)
        }
        _ => panic!("no status"),
    }
}

fn ready_of(o: &Outgoing) -> (bool, bool) {
    match &o.event {
        FlighthookEvent::LaunchMonitor(r) => match r.event {
            LaunchMonitorEvent::ReadyState { armed, ball_detected } => (armed, ball_detected),
            _ => panic!("no readiness"),
        },
        _ => panic!("no readiness"),
    }
}

fn alert_of(o: &Outgoing) -> (AlertLevel, String) {
    match &o.event {
        FlighthookEvent::Alert(a) => (a.level, a.message.clone()),
        _ => panic!("no alert"),
    }
}

fn pair(k: &str, v: &str) -> (String, String) {
    (k.to_string(), v.to_string())
}

#[test]
fn the_wait_doubles_up_to_thirty_seconds() {
    let mut wait = 1;
    let mut seen = vec![wait];
    for _ in 0..7 {
        wait = next_backoff(wait);
        seen.push(wait);
    }
    assert_eq!(seen, vec![1, 2, 4, 8, 16, 30, 30, 30]);
    assert_eq!(next_backoff(15), 30);
    assert_eq!(next_backoff(14), 28);
    assert_eq!(next_backoff(u64::MAX), 30);
}

#[test]
fn timeouts_and_protocol_violations_pass() {
    assert!(is_transient(ConnErrorKind::Timeout));
    assert!(is_transient(ConnErrorKind::Protocol));
    assert!(!is_transient(ConnErrorKind::Io));
    assert!(!is_transient(ConnErrorKind::Wire));
    assert!(!is_transient(ConnErrorKind::Disconnected));
}

#[test]
fn settings_take_defaults_for_what_a_section_leaves_out() {
    let section = MevoSection {
        name: "m".to_string(),
        address: None,
        ball_type: None,
        tee_height: Some(Distance::Centimeters(s(4.0))),
        range: None,
        surface_height: None,
        track_pct: None,
        use_partial: Some(PartialMode::Always),
    };
    let c = SessionConfig::from_mevo_section(&section);
    assert_eq!(c.ball_type, 0);
    assert_eq!(c.tee_height, Distance::Centimeters(s(4.0)));
    assert_eq!(c.range, Distance::Feet(s(8.0)));
    assert_eq!(c.surface_height, Distance::Inches(s(0.0)));
    assert_eq!(c.track_pct, s(80.0));
    assert_eq!(c.use_partial, PartialMode::Always);
    assert_eq!(SessionConfig::default().tee_height, Distance::Inches(s(1.5)));
    assert_eq!(SessionConfig::mode_label(&ShotDetectionMode::Full), "outdoor(9)");
    assert_eq!(SessionConfig::mode_label(&ShotDetectionMode::Putting), "putting(3)");
    assert_eq!(SessionConfig::mode_label(&ShotDetectionMode::Chipping), "chipping(5)");
    let event = c.to_config_event();
    let mut back = SessionConfig::default();
    back.apply_config_event(&event);
    assert_eq!(back, c);
    assert!(back.equals(&c));
    assert!(!back.equals(&SessionConfig::default()));
}

#[test]
fn device_telemetry_lists_what_the_device_reports() {
    let t = telemetry_state(87, "1.2", "-0.4", "31.5", true, false);
    let pairs: Vec<(String, String)> =
        (0..t.len()).map(|i| (t.key_at(i).clone(), t.value_at(i).clone())).collect();
    assert_eq!(
        pairs,
        vec![
            pair("battery_pct", "87"),
            pair("tilt", "1.2"),
            pair("roll", "-0.4"),
            pair("temp_c", "31.5"),
            pair("external_power", "true"),
            pair("armed", "false"),
        ]
    );
}

#[test]
fn the_handshake_and_the_first_arming_are_announced() {
    let session = DeviceSession::new(ShotDetectionMode::Full, SessionConfig::default());
    let info = HandshakeInfo {
        device_info: "Mevo+ (Gen2)".to_string(),
        battery_pct: 55,
        external_power: false,
        tilt: "0.5".to_string(),
        roll: "0.1".to_string(),
    };
    let out = session.on_handshake(&info);
    assert_eq!(out.len(), 2);
    let (st, pairs) = status_of(&out[0]);
    assert_eq!(st, ActorStatus::Connected);
    assert!(pairs.contains(&pair("battery_pct", "55")));
    assert!(pairs.contains(&pair("temp_c", "0.0")));
    assert!(pairs.contains(&pair("armed", "false")));
    assert!(pairs.contains(&pair("device_info", "Mevo+ (Gen2)")));
    assert_eq!(ready_of(&out[1]), (false, false));
    let out = session.on_armed(&info);
    let (st, pairs) = status_of(&out[0]);
    assert_eq!(st, ActorStatus::Connected);
    assert!(pairs.contains(&pair("armed", "true")));
    assert!(pairs.contains(&pair("mode", "outdoor(9)")));
    assert_eq!(ready_of(&out[1]), (true, true));
}

#[test]
fn a_change_of_mode_arms_the_device_again() {
    let mut session = DeviceSession::new(ShotDetectionMode::Full, SessionConfig::default());
    let same = BusPoll::Message(FlighthookEvent::set_mode(ShotDetectionMode::Full));
    let step = session.on_bus(&same);
    assert_eq!(step.next, Next::Continue);
    assert!(step.publish.is_empty());

    let putting = BusPoll::Message(FlighthookEvent::set_mode(ShotDetectionMode::Putting));
    let step = session.on_bus(&putting);
    assert_eq!(step.next, Next::Rearm { mode: ShotDetectionMode::Putting });
    assert_eq!(status_of(&step.publish[0]), (ActorStatus::Starting, vec![]));
    assert_eq!(ready_of(&step.publish[1]), (false, false));
    assert_eq!(session.current_mode, ShotDetectionMode::Full);

    let step = session.on_rearmed(&Ok(()));
    assert_eq!(step.next, Next::Continue);
    assert_eq!(session.current_mode, ShotDetectionMode::Putting);
    assert_eq!(
        status_of(&step.publish[0]),
        (ActorStatus::Connected, vec![pair("armed", "true"), pair("mode", "putting(3)")])
    );
    assert_eq!(ready_of(&step.publish[1]), (true, true));
}

#[test]
fn a_passing_failure_to_change_mode_keeps_the_old_mode() {
    let mut session = DeviceSession::new(ShotDetectionMode::Full, SessionConfig::default());
    session.on_bus(&BusPoll::Message(FlighthookEvent::set_mode(ShotDetectionMode::Chipping)));
    let step = session.on_rearmed(&Err(failure(ConnErrorKind::Timeout)));
    assert_eq!(step.next, Next::Continue);
    assert_eq!(session.current_mode, ShotDetectionMode::Full);
    assert_eq!(
        alert_of(&step.publish[0]),
        (AlertLevel::Warn, "Mode change failed: recv timed out".to_string())
    );
    assert_eq!(
        status_of(&step.publish[1]),
        (ActorStatus::Connected, vec![pair("armed", "true"), pair("mode", "outdoor(9)")])
    );
    assert_eq!(ready_of(&step.publish[2]), (true, true));

    session.on_bus(&BusPoll::Message(FlighthookEvent::set_mode(ShotDetectionMode::Chipping)));
    let step = session.on_rearmed(&Err(failure(ConnErrorKind::Io)));
    assert_eq!(step.next, Next::Fail(ConnErrorKind::Io));
    assert!(step.publish.is_empty());
}

#[test]
fn new_settings_are_taken_over_and_the_device_is_armed_again() {
    let mut session = DeviceSession::new(ShotDetectionMode::Chipping, SessionConfig::default());
    let settings = MevoConfigEvent {
        ball_type: 1,
        tee_height: Distance::Inches(s(2.0)),
        range: Distance::Feet(s(9.0)),
        surface_height: Distance::Inches(s(0.5)),
        track_pct: s(70.0),
        use_partial: PartialMode::Never,
    };
    let step = session.on_bus(&BusPoll::Message(FlighthookEvent::config_changed(settings)));
    assert_eq!(step.next, Next::Rearm { mode: ShotDetectionMode::Chipping });
    assert_eq!(session.session_config.ball_type, 1);
    assert_eq!(session.session_config.use_partial, PartialMode::Never);
    let step = session.on_rearmed(&Err(failure(ConnErrorKind::Protocol)));
    assert_eq!(
        alert_of(&step.publish[0]),
        (AlertLevel::Warn, "Settings update failed: recv timed out".to_string())
    );
    assert_eq!(step.next, Next::Continue);
    assert_eq!(session.on_bus(&BusPoll::Shutdown).next, Next::Shutdown);
}

#[test]
fn a_shot_is_published_with_the_bytes_of_the_marker() {
    let mut session = DeviceSession::new(ShotDetectionMode::Chipping, SessionConfig::default());
    let step = session.on_received(
        &DeviceMessage::ShotText("BALL TRIGGER".to_string()),
        vec![0xe5],
        "mevo.0",
    ).step;
    assert_eq!(step.next, Next::Continue);
    assert_eq!(
        status_of(&step.publish[0]),
        (ActorStatus::Connected, vec![pair("shooting", "true")])
    );
    assert_eq!(ready_of(&step.publish[1]), (false, false));
    let e8 = FlightResultV1 {
        total: 4,
        ball_velocity: s(18.0),
        elevation: s(35.0),
        azimuth: s(0.5),
        distance: s(27.0),
        height: s(8.0),
        flight_time: s(2.5),
        backspin_rpm: 5000,
        club_velocity: s(25.0),
        club_strike_direction: s(0.4),
    };
    let step = session.on_received(&DeviceMessage::FlightResultV1(e8), vec![0xe8], "mevo.0").step;
    assert!(step.publish.is_empty());
    assert_eq!(step.next, Next::Continue);
    let step = session.on_received(
        &DeviceMessage::ShotText("PROCESSED".to_string()),
        vec![0xe5, 0x02],
        "mevo.0",
    ).step;
    assert_eq!(step.next, Next::CompleteShot);
    assert_eq!(step.publish.len(), 2);
    assert_eq!(step.publish[0].raw, Some(vec![0xe5, 0x02]));
    match &step.publish[0].event {
        FlighthookEvent::LaunchMonitor(r) => match &r.event {
            LaunchMonitorEvent::ShotResult { shot } => {
                assert_eq!(shot.shot_number, 4);
                assert_eq!(shot.source, "mevo.0");
                assert!(shot.estimated);
            }
            _ => panic!("no shot"),
        },
        _ => panic!("no shot"),
    }
    assert_eq!(status_of(&step.publish[1]), (ActorStatus::Starting, vec![]));

    let again = session.on_shot_completed(&Err(failure(ConnErrorKind::Timeout)));
    assert_eq!(again.next, Next::CompleteShot);
    let broken = session.on_shot_completed(&Err(failure(ConnErrorKind::Disconnected)));
    assert_eq!(broken.next, Next::Fail(ConnErrorKind::Disconnected));
    let done = session.on_shot_completed(&Ok(()));
    assert_eq!(done.next, Next::Continue);
    assert_eq!(
        status_of(&done.publish[0]),
        (ActorStatus::Connected, vec![pair("armed", "true"), pair("mode", "chipping(5)")])
    );
    assert_eq!(ready_of(&done.publish[1]), (true, true));
}

#[test]
fn a_processed_marker_without_a_shot_warns_the_user() {
    let mut session = DeviceSession::new(ShotDetectionMode::Full, SessionConfig::default());
    session.on_received(&DeviceMessage::ShotText("BALL TRIGGER".to_string()), vec![], "mevo.0");
    let step =
        session.on_received(&DeviceMessage::ShotText("PROCESSED".to_string()), vec![], "mevo.0").step;
    assert_eq!(step.next, Next::CompleteShot);
    assert_eq!(
        alert_of(&step.publish[0]),
        (
            AlertLevel::Warn,
            "Shot triggered but no result produced (D4=false, E8=false, club=false, spin=false)"
                .to_string()
        )
    );
}

#[test]
fn the_sixth_failed_keepalive_in_a_row_ends_the_session() {
    let mut session = DeviceSession::new(ShotDetectionMode::Full, SessionConfig::default());
    assert_eq!(session.on_receive_failed(&failure(ConnErrorKind::Timeout)).next, Next::Keepalive);
    for n in 1..=5u32 {
        let step = session.on_keepalive(&Err(failure(ConnErrorKind::Timeout)));
        assert_eq!(step.next, Next::Continue);
        assert_eq!(session.keepalive_failures, n);
    }
    let step = session.on_keepalive(&Err(failure(ConnErrorKind::Protocol)));
    assert_eq!(step.next, Next::Fail(ConnErrorKind::Disconnected));

    let mut session = DeviceSession::new(ShotDetectionMode::Full, SessionConfig::default());
    for _ in 0..5 {
        session.on_keepalive(&Err(failure(ConnErrorKind::Timeout)));
    }
    let ok = DeviceStatus {
        battery_pct: 90,
        external_power: true,
        temp_c: "30.0".to_string(),
        tilt: "0.0".to_string(),
        roll: "0.0".to_string(),
    };
    let step = session.on_keepalive(&Ok(ok));
    assert_eq!(step.next, Next::Continue);
    assert_eq!(session.keepalive_failures, 0);
    let (st, pairs) = status_of(&step.publish[0]);
    assert_eq!(st, ActorStatus::Connected);
    assert!(pairs.contains(&pair("battery_pct", "90")));
    assert!(pairs.contains(&pair("armed", "true")));
    assert!(pairs.contains(&pair("mode", "outdoor(9)")));
    assert_eq!(
        session.on_keepalive(&Err(failure(ConnErrorKind::Io))).next,
        Next::Fail(ConnErrorKind::Io)
    );

    for _ in 0..3 {
        session.on_keepalive(&Err(failure(ConnErrorKind::Timeout)));
    }
    session.on_received(&DeviceMessage::Other, vec![], "mevo.0");
    assert_eq!(session.keepalive_failures, 0);
}

#[test]
fn failures_to_receive_are_sorted_by_kind() {
    let session = DeviceSession::new(ShotDetectionMode::Full, SessionConfig::default());
    let wire = ConnFailure {
        kind: ConnErrorKind::Wire,
        text: "wire error".to_string(),
        detail: "Wire(BadFrame)".to_string(),
    };
    let step = session.on_receive_failed(&wire);
    assert_eq!(step.next, Next::Continue);
    assert_eq!(
        alert_of(&step.publish[0]),
        (AlertLevel::Warn, "Could not process message: Wire(BadFrame)".to_string())
    );
    assert_eq!(session.on_receive_failed(&failure(ConnErrorKind::Protocol)).next, Next::Continue);
    assert_eq!(
        session.on_receive_failed(&failure(ConnErrorKind::Disconnected)).next,
        Next::Fail(ConnErrorKind::Disconnected)
    );
    assert_eq!(
        session.on_receive_failed(&failure(ConnErrorKind::Io)).next,
        Next::Fail(ConnErrorKind::Io)
    );
}

#[test]
fn a_failed_session_is_announced() {
    let out = on_session_failed("connection closed by device", true);
    assert_eq!(
        alert_of(&out[0]),
        (AlertLevel::Warn, "Device connection error: connection closed by device".to_string())
    );
    assert_eq!(status_of(&out[1]), (ActorStatus::Reconnecting, vec![]));
    assert_eq!(ready_of(&out[2]), (false, false));
    let out = on_session_failed("refused", false);
    assert_eq!(status_of(&out[1]), (ActorStatus::Disconnected, vec![]));
}

#[test]
fn a_device_actor_announces_its_start_its_attempts_and_its_end() {
    let started = flighthook::actors::mevo::session::on_actor_started(&SessionConfig::default());
    assert_eq!(started.len(), 1);
    assert!(started[0].raw.is_none());
    match &started[0].event {
        FlighthookEvent::ConfigChanged(c) => {
            assert_eq!(c.config, SessionConfig::default().to_config_event());
            assert_eq!(c.config.range, Distance::Feet(s(8.0)));
        }
        _ => panic!("no settings"),
    }
    let connecting = flighthook::actors::mevo::session::on_connecting();
    assert_eq!(connecting.len(), 1);
    assert_eq!(status_of(&connecting[0]), (ActorStatus::Starting, vec![]));
    let stopped = flighthook::actors::mevo::session::on_actor_stopped();
    assert_eq!(stopped.len(), 1);
    assert_eq!(status_of(&stopped[0]), (ActorStatus::Disconnected, vec![]));
}

#[test]
fn a_fragment_before_the_trigger_is_reported_as_an_auto_start() {
    let mut session = DeviceSession::new(ShotDetectionMode::Full, SessionConfig::default());
    let e8 = FlightResultV1 {
        total: 1,
        ball_velocity: s(18.0),
        elevation: s(35.0),
        azimuth: s(0.5),
        distance: s(27.0),
        height: s(8.0),
        flight_time: s(2.0),
        backspin_rpm: 5000,
        club_velocity: s(25.0),
        club_strike_direction: s(0.2),
    };
    let other = session.on_received(&DeviceMessage::Other, vec![], "mevo.0");
    assert!(!other.auto_started);
    let first = session.on_received(&DeviceMessage::FlightResultV1(e8), vec![], "mevo.0");
    assert!(first.auto_started);
    assert!(first.step.publish.is_empty());
    let second = session.on_received(&DeviceMessage::FlightResultV1(e8), vec![], "mevo.0");
    assert!(!second.auto_started);
    let trigger =
        session.on_received(&DeviceMessage::ShotText("BALL TRIGGER".to_string()), vec![], "mevo.0");
    assert!(!trigger.auto_started);
    let after = session.on_received(&DeviceMessage::FlightResultV1(e8), vec![], "mevo.0");
    assert!(!after.auto_started);
    let done =
        session.on_received(&DeviceMessage::ShotText("PROCESSED".to_string()), vec![], "mevo.0");
    assert!(!done.auto_started);
    assert_eq!(done.step.next, Next::CompleteShot);
}
