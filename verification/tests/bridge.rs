use flighthook::actors::gspro::api::PlayerInfo as SimPlayer;
use flighthook::actors::gspro::bridge::{BridgeState, Drained};
use flighthook::event::new_telemetry;
use flighthook::{
    handle_response, readiness, shot_matches_routing, should_forward_partial, AlertLevel,
    BallFlight, Club, ClubData, FlighthookEvent, GameStateCommandEvent, GsProMessage,
    GsProResponse, GsProRouting, MevoConfigEvent, PartialMode, Readiness, Scalar, ShotData,
    ShotDetectionMode, StrMap, Velocity, ActorStatus, Distance,
};

fn s(x: f64) -> Scalar {
    Scalar::from_bits(x.to_bits())
}

fn shot(number: i32, estimated: bool) -> ShotData {
    ShotData {
        source: "mevo.0".to_string(),
        shot_number: number,
        ball: BallFlight {
            launch_speed: Velocity::MetersPerSecond(s(18.0)),
            launch_elevation: s(35.0),
            launch_azimuth: s(0.5),
            carry_distance: Some(Distance::Meters(s(27.0))),
            total_distance: None,
            max_height: None,
            flight_time: None,
            roll_distance: None,
            backspin_rpm: Some(5000),
            sidespin_rpm: None,
        },
        club: Some(ClubData {
            club_speed: Velocity::MetersPerSecond(s(25.0)),
            path: None,
            attack_angle: None,
            face_angle: None,
            dynamic_loft: None,
            smash_factor: None,
            club_speed_post: None,
            swing_plane_horizontal: None,
            swing_plane_vertical: None,
            club_offset: None,
            club_height: None,
        }),
        spin: None,
        estimated,
    }
}

fn routing(full: Option<&str>, chipping: Option<&str>, putting: Option<&str>) -> GsProRouting {
    GsProRouting {
        full_monitor: full.map(|x| x.to_string()),
        chipping_monitor: chipping.map(|x| x.to_string()),
        putting_monitor: putting.map(|x| x.to_string()),
    }
}

#[test]
fn partial_shots_follow_the_policy() {
    let modes =
        [ShotDetectionMode::Full, ShotDetectionMode::Chipping, ShotDetectionMode::Putting];
    for mode in modes {
        assert!(should_forward_partial(mode, PartialMode::Always));
        assert!(!should_forward_partial(mode, PartialMode::Never));
    }
    assert!(should_forward_partial(ShotDetectionMode::Chipping, PartialMode::ChippingOnly));
    assert!(!should_forward_partial(ShotDetectionMode::Full, PartialMode::ChippingOnly));
    assert!(!should_forward_partial(ShotDetectionMode::Putting, PartialMode::ChippingOnly));
}

#[test]
fn routing_takes_the_named_monitor_or_any() {
    let r = routing(Some("mevo.1"), None, Some("mevo.0"));
    assert!(!shot_matches_routing(&r, ShotDetectionMode::Full, "mevo.0"));
    assert!(shot_matches_routing(&r, ShotDetectionMode::Full, "mevo.1"));
    assert!(shot_matches_routing(&r, ShotDetectionMode::Chipping, "mevo.0"));
    assert!(shot_matches_routing(&r, ShotDetectionMode::Chipping, "anything"));
    assert!(shot_matches_routing(&r, ShotDetectionMode::Putting, "mevo.0"));
    assert!(!shot_matches_routing(&r, ShotDetectionMode::Putting, "mevo.1"));
    assert!(r.equals(&r.duplicate()));
    assert!(!r.equals(&GsProRouting::default()));
}

#[test]
fn a_shot_of_another_monitor_is_not_forwarded() {
    let mut bridge = BridgeState::new(routing(Some("mevo.1"), None, None), 0);
    let mut drained = Drained::new();
    bridge.on_bus_event("mevo.0", &FlighthookEvent::shot(shot(1, false)), &mut drained);
    assert!(drained.shots_to_send.is_empty());
    bridge.on_bus_event("mevo.1", &FlighthookEvent::shot(shot(2, false)), &mut drained);
    assert_eq!(drained.shots_to_send.len(), 1);
    assert_eq!(drained.shots_to_send[0].shot_number, 2);
    assert!(!drained.readiness_changed);
}

#[test]
fn an_estimated_chip_is_forwarded_in_chipping_mode_only() {
    let mut bridge = BridgeState::new(routing(Some("mevo.0"), None, None), 0);
    assert_eq!(bridge.use_partial, PartialMode::ChippingOnly);
    let mut drained = Drained::new();
    bridge.on_bus_event("mevo.0", &FlighthookEvent::shot(shot(1, true)), &mut drained);
    assert!(drained.shots_to_send.is_empty());
    bridge.on_bus_event(
        "system",
        &FlighthookEvent::set_mode(ShotDetectionMode::Chipping),
        &mut drained,
    );
    assert!(drained.readiness_changed);
    assert_eq!(bridge.current_mode, ShotDetectionMode::Chipping);
    bridge.on_bus_event("mevo.0", &FlighthookEvent::shot(shot(2, true)), &mut drained);
    assert_eq!(drained.shots_to_send.len(), 1);
    let sent = drained.shots_to_send.remove(0);
    assert_eq!(sent.shot_number, 2);
    assert!(sent.estimated);
    assert_eq!(sent.club.unwrap().club_speed, Velocity::MetersPerSecond(s(25.0)));
}

#[test]
fn the_policy_follows_the_announced_settings() {
    let mut bridge = BridgeState::new(GsProRouting::default(), 0);
    let mut drained = Drained::new();
    let settings = MevoConfigEvent {
        ball_type: 1,
        tee_height: Distance::Inches(s(1.5)),
        range: Distance::Feet(s(8.0)),
        surface_height: Distance::Inches(s(0.0)),
        track_pct: s(80.0),
        use_partial: PartialMode::Never,
    };
    bridge.on_bus_event("mevo.0", &FlighthookEvent::config_changed(settings), &mut drained);
    assert_eq!(bridge.use_partial, PartialMode::Never);
    bridge.on_bus_event(
        "system",
        &FlighthookEvent::set_mode(ShotDetectionMode::Chipping),
        &mut drained,
    );
    bridge.on_bus_event("mevo.0", &FlighthookEvent::shot(shot(1, true)), &mut drained);
    assert!(drained.shots_to_send.is_empty());
    bridge.on_bus_event("mevo.0", &FlighthookEvent::shot(shot(2, false)), &mut drained);
    let numbers: Vec<i32> = drained.shots_to_send.iter().map(|s| s.shot_number).collect();
    assert_eq!(numbers, vec![2]);
}

#[test]
fn every_accepted_shot_waits_in_the_order_of_arrival() {
    let mut bridge = BridgeState::new(GsProRouting::default(), 0);
    let mut drained = Drained::new();
    assert!(drained.shots_to_send.is_empty());
    bridge.on_bus_event("mevo.0", &FlighthookEvent::shot(shot(1, false)), &mut drained);
    bridge.on_bus_event("mevo.1", &FlighthookEvent::shot(shot(2, false)), &mut drained);
    bridge.on_bus_event("mevo.1", &FlighthookEvent::shot(shot(3, true)), &mut drained);
    bridge.on_bus_event("mevo.0", &FlighthookEvent::ready_state(true, true), &mut drained);
    bridge.on_bus_event("mevo.0", &FlighthookEvent::shot(shot(4, false)), &mut drained);
    let numbers: Vec<i32> = drained.shots_to_send.iter().map(|s| s.shot_number).collect();
    assert_eq!(numbers, vec![1, 2, 4]);
    assert!(drained.readiness_changed);
}

#[test]
fn readiness_follows_the_routed_monitor() {
    let mut states: StrMap<Readiness> = StrMap::new();
    states.insert("mevo.0".to_string(), Readiness { armed: true, ball_detected: false });
    states.insert("mevo.1".to_string(), Readiness { armed: false, ball_detected: true });
    let r = routing(Some("mevo.0"), Some("mevo.9"), None);
    assert_eq!(
        readiness(&r, ShotDetectionMode::Full, &states),
        Readiness { armed: true, ball_detected: false }
    );
    assert_eq!(
        readiness(&r, ShotDetectionMode::Chipping, &states),
        Readiness { armed: false, ball_detected: false }
    );
    assert_eq!(
        readiness(&r, ShotDetectionMode::Putting, &states),
        Readiness { armed: true, ball_detected: true }
    );
    let none: StrMap<Readiness> = StrMap::new();
    assert_eq!(
        readiness(&r, ShotDetectionMode::Putting, &none),
        Readiness { armed: false, ball_detected: false }
    );
}

#[test]
fn heartbeats_go_out_on_time_and_on_change() {
    let mut bridge = BridgeState::new(routing(Some("mevo.0"), None, None), 5_000);
    assert_eq!(bridge.heartbeat_due_ms, 6_000);
    assert!(bridge.heartbeat(false, 5_999).is_none());
    let first: GsProMessage = bridge.heartbeat(false, 6_000).unwrap();
    assert!(first.shot_data_options.is_heart_beat);
    assert!(!first.shot_data_options.contains_ball_data);
    assert!(!first.shot_data_options.launch_monitor_is_ready);
    assert_eq!(first.device_id, "Flighthook");
    assert_eq!(first.units, "Yards");
    assert_eq!(first.api_version, "1");
    assert_eq!(first.shot_number, 0);
    assert_eq!(first.ball_data.speed, s(0.0));
    assert_eq!(first.ball_data.carry_distance, None);
    assert_eq!(bridge.heartbeat_due_ms, 16_000);
    assert!(bridge.heartbeat(false, 15_999).is_none());

    let mut drained = Drained::new();
    bridge.on_bus_event("mevo.0", &FlighthookEvent::ready_state(true, true), &mut drained);
    assert!(drained.readiness_changed);
    let edge = bridge.heartbeat(drained.readiness_changed, 7_000).unwrap();
    assert!(edge.shot_data_options.launch_monitor_is_ready);
    assert!(edge.shot_data_options.launch_monitor_ball_detected);
    assert_eq!(bridge.heartbeat_due_ms, 17_000);
    assert!(bridge.heartbeat(true, 7_100).is_none());
    assert!(bridge.heartbeat(false, 17_000).is_some());
    assert_eq!(BridgeState::new(GsProRouting::default(), u64::MAX).heartbeat_due_ms, u64::MAX);
}

#[test]
fn a_monitor_that_goes_down_counts_as_not_ready() {
    let mut bridge = BridgeState::new(routing(Some("mevo.0"), None, None), 0);
    let mut drained = Drained::new();
    let down = FlighthookEvent::status(ActorStatus::Reconnecting, new_telemetry());
    bridge.on_bus_event("mevo.0", &down, &mut drained);
    assert!(!drained.readiness_changed);
    bridge.on_bus_event("mevo.0", &FlighthookEvent::ready_state(true, true), &mut drained);
    assert!(bridge.heartbeat(true, 10).unwrap().shot_data_options.launch_monitor_is_ready);
    let mut drained = Drained::new();
    let up = FlighthookEvent::status(ActorStatus::Connected, new_telemetry());
    bridge.on_bus_event("mevo.0", &up, &mut drained);
    assert!(!drained.readiness_changed);
    bridge.on_bus_event("mevo.0", &down, &mut drained);
    assert!(drained.readiness_changed);
    let beat = bridge.heartbeat(drained.readiness_changed, 20).unwrap();
    assert!(!beat.shot_data_options.launch_monitor_is_ready);
    assert!(!beat.shot_data_options.launch_monitor_ball_detected);
}

fn alert_text(e: &FlighthookEvent) -> (AlertLevel, String) {
    match e {
        FlighthookEvent::Alert(a) => (a.level, a.message.clone()),
        _ => panic!("no alert"),
    }
}

#[test]
fn answers_of_the_simulator_become_events() {
    let ok = GsProResponse { code: 200, message: "fine".to_string(), player: None };
    assert!(handle_response(&vec![ok], None).is_empty());

    let rejected = GsProResponse { code: 501, message: "no".to_string(), player: None };
    let events = handle_response(&vec![rejected], None);
    assert_eq!(events.len(), 1);
    assert_eq!(alert_text(&events[0]), (AlertLevel::Warn, "GSPro returned 501: no".to_string()));

    let low = GsProResponse { code: 199, message: "".to_string(), player: None };
    let high = GsProResponse { code: 300, message: "".to_string(), player: None };
    let edge = GsProResponse { code: 299, message: "".to_string(), player: None };
    assert_eq!(handle_response(&vec![low], None).len(), 1);
    assert_eq!(handle_response(&vec![high], None).len(), 1);
    assert_eq!(handle_response(&vec![edge], None).len(), 0);

    let player = GsProResponse {
        code: 201,
        message: "player".to_string(),
        player: Some(SimPlayer { handed: Some("LH".to_string()), club: Some("pt".to_string()) }),
    };
    let events = handle_response(&vec![player], None);
    assert_eq!(events.len(), 2);
    match &events[0] {
        FlighthookEvent::GameStateCommand(c) => match &c.event {
            GameStateCommandEvent::SetPlayerInfo { player_info } => {
                assert_eq!(player_info.handed, "LH")
            }
            _ => panic!("no player"),
        },
        _ => panic!("no command"),
    }
    match &events[1] {
        FlighthookEvent::GameStateCommand(c) => match &c.event {
            GameStateCommandEvent::SetClubInfo { club_info } => {
                assert_eq!(club_info.club, Club::Putter)
            }
            _ => panic!("no club"),
        },
        _ => panic!("no command"),
    }

    let unknown = GsProResponse {
        code: 200,
        message: "".to_string(),
        player: Some(SimPlayer { handed: None, club: Some("Q7".to_string()) }),
    };
    let events = handle_response(&vec![unknown], None);
    assert_eq!(events.len(), 1);
    assert_eq!(
        alert_text(&events[0]),
        (AlertLevel::Warn, "GSPro: unknown club code 'Q7'".to_string())
    );
}

#[test]
fn a_failure_to_read_is_reported_only_before_the_first_answer() {
    let events = handle_response(&vec![], Some("expected value at line 1"));
    assert_eq!(events.len(), 1);
    assert_eq!(
        alert_text(&events[0]),
        (
            AlertLevel::Warn,
            "Could not parse GSPro response: expected value at line 1".to_string()
        )
    );
    let ok = GsProResponse { code: 200, message: "fine".to_string(), player: None };
    assert!(handle_response(&vec![ok], Some("trailing characters")).is_empty());
    assert!(handle_response(&vec![], None).is_empty());
}
