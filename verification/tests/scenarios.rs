use flighthook::actors::gspro::api::{BallData, ClubData as SimClub};
use flighthook::actors::gspro::bridge::Drained;
use flighthook::actors::mevo::accumulator::{ClubResult, FlightResult, FlightResultV1};
use flighthook::actors::mevo::session::{BusPoll, Next};
use flighthook::{
    apply_game_command, BridgeState, Club, ClubInfo, DeviceMessage, DeviceSession, Distance,
    FlighthookEvent, GameState, GameStateCommandEvent, GsProMessage, GsProRouting,
    LaunchMonitorEvent, Readiness, Scalar, SessionConfig, ShotData, ShotDetectionMode, Velocity,
};

fn s(x: f64) -> Scalar {
    Scalar::from_bits(x.to_bits())
}

fn n(x: Scalar) -> f64 {
    f64::from_bits(x.to_bits())
}

fn text(t: &str) -> DeviceMessage {
    DeviceMessage::ShotText(t.to_string())
}

fn full_flight() -> FlightResult {
    FlightResult {
        total: 12,
        launch_speed: s(53.0),
        launch_elevation: s(17.0),
        launch_azimuth: s(0.8),
        carry_distance: s(155.0),
        max_height: s(26.0),
        flight_time: s(5.0),
        backspin_rpm: 5500,
        sidespin_rpm: 80,
        clubhead_speed: s(35.0),
        club_strike_direction: s(0.1),
        club_attack_angle: s(-3.0),
        club_face_angle: s(0.2),
        club_effective_loft: s(21.0),
        clubhead_speed_post: s(25.0),
        club_swing_plane_rotation: s(0.0),
        club_swing_plane_tilt: s(45.0),
    }
}

fn club_record() -> ClubResult {
    ClubResult {
        pre_club_speed: s(36.0),
        post_club_speed: s(25.0),
        strike_direction: s(0.3),
        attack_angle: s(-4.0),
        face_angle: s(0.5),
        dynamic_loft: s(22.0),
        smash_factor: s(1.45),
        swing_plane_horizontal: s(0.0),
        swing_plane_vertical: s(45.0),
        club_offset: s(0.0),
        club_height: s(0.0),
    }
}

fn partial_flight() -> FlightResultV1 {
    FlightResultV1 {
        total: 4,
        ball_velocity: s(18.0),
        elevation: s(35.0),
        azimuth: s(0.5),
        distance: s(27.0),
        height: s(8.0),
        flight_time: s(2.0),
        backspin_rpm: 5000,
        club_velocity: s(25.0),
        club_strike_direction: s(0.2),
    }
}

/// Feeds the messages of one swing to a session and returns the shot that it publishes.
fn swing(session: &mut DeviceSession, messages: Vec<DeviceMessage>, source: &str) -> ShotData {
    let mut found = None;
    for message in &messages {
        let step = session.on_received(message, vec![0xe5, 0x01], source).step;
        if message.is_processed() {
            assert_eq!(step.next, Next::CompleteShot);
        } else {
            assert_eq!(step.next, Next::Continue);
        }
        for out in step.publish {
            if let FlighthookEvent::LaunchMonitor(r) = out.event {
                if let LaunchMonitorEvent::ShotResult { shot } = r.event {
                    assert_eq!(out.raw, Some(vec![0xe5, 0x01]));
                    assert!(found.is_none());
                    found = Some(*shot);
                }
            }
        }
    }
    found.expect("no shot")
}

fn mph(v: Velocity) -> f64 {
    match v {
        Velocity::MetersPerSecond(x) => n(x) * 2.23694,
        _ => panic!("not in metres per second"),
    }
}

fn yards(d: Distance) -> f64 {
    match d {
        Distance::Meters(x) => n(x) / 0.9144,
        _ => panic!("not in metres"),
    }
}

/// What the program around the library makes of a shot for the simulator.
fn report(shot: &ShotData) -> GsProMessage {
    let ball = BallData {
        speed: s(mph(shot.ball.launch_speed)),
        spin_axis: s(0.0),
        total_spin: s(0.0),
        back_spin: s(f64::from(shot.ball.backspin_rpm.unwrap_or(0))),
        side_spin: s(f64::from(shot.ball.sidespin_rpm.unwrap_or(0))),
        hla: shot.ball.launch_azimuth,
        vla: shot.ball.launch_elevation,
        carry_distance: shot.ball.carry_distance.map(|d| s(yards(d))),
    };
    let club = shot.club.map(|c| SimClub {
        speed: s(mph(c.club_speed)),
        angle_of_attack: c.attack_angle.unwrap_or(s(0.0)),
        face_to_target: c.face_angle.unwrap_or(s(0.0)),
        loft: c.dynamic_loft.unwrap_or(s(0.0)),
        path: c.path.unwrap_or(s(0.0)),
    });
    GsProMessage::shot_report(shot.shot_number, ball, club)
}

fn routed_to(full: &str) -> GsProRouting {
    GsProRouting {
        full_monitor: Some(full.to_string()),
        chipping_monitor: None,
        putting_monitor: None,
    }
}

#[test]
fn a_full_shot_reaches_the_simulator() {
    let mut session = DeviceSession::new(ShotDetectionMode::Full, SessionConfig::default());
    let shot = swing(
        &mut session,
        vec![
            text("BALL TRIGGER"),
            DeviceMessage::FlightResult(full_flight()),
            DeviceMessage::ClubResult(club_record()),
            text("PROCESSED"),
        ],
        "mevo.0",
    );
    assert_eq!(shot.source, "mevo.0");
    assert_eq!(shot.shot_number, 12);
    assert!(!shot.estimated);
    assert_eq!(shot.ball.launch_speed, Velocity::MetersPerSecond(s(53.0)));
    assert_eq!(shot.ball.carry_distance, Some(Distance::Meters(s(155.0))));
    assert_eq!(shot.ball.backspin_rpm, Some(5500));
    assert_eq!(shot.ball.sidespin_rpm, Some(80));
    let club = shot.club.unwrap();
    assert_eq!(club.club_speed, Velocity::MetersPerSecond(s(36.0)));
    assert_eq!(club.attack_angle, Some(s(-4.0)));
    assert_eq!(club.smash_factor, Some(s(1.45)));

    let mut bridge = BridgeState::new(routed_to("mevo.0"), 0);
    let mut drained = Drained::new();
    bridge.on_bus_event("mevo.0", &FlighthookEvent::shot(shot), &mut drained);
    assert_eq!(drained.shots_to_send.len(), 1);
    let sent = drained.shots_to_send.remove(0);
    let message = report(&sent);
    assert_eq!(message.shot_number, 12);
    assert!((n(message.ball_data.speed) - 118.6).abs() < 0.05);
    assert!((n(message.club_data.speed) - 80.5).abs() < 0.05);
    assert_eq!(message.club_data.loft, s(22.0));
    assert!(!message.shot_data_options.is_heart_beat);
    assert!(message.shot_data_options.contains_club_data);
    assert!(message.shot_data_options.contains_ball_data);
}

#[test]
fn a_partial_chip_is_forwarded_in_chipping_mode_and_dropped_in_full_mode() {
    let mut session = DeviceSession::new(ShotDetectionMode::Chipping, SessionConfig::default());
    let shot = swing(
        &mut session,
        vec![
            text("BALL TRIGGER"),
            DeviceMessage::FlightResultV1(partial_flight()),
            text("PROCESSED"),
        ],
        "mevo.0",
    );
    assert!(shot.estimated);
    assert_eq!(shot.shot_number, 4);
    assert_eq!(shot.ball.total_distance, None);
    assert_eq!(shot.ball.sidespin_rpm, None);
    assert_eq!(shot.ball.backspin_rpm, Some(5000));

    let mut chipping = BridgeState::new(routed_to("mevo.0"), 0);
    let mut drained = Drained::new();
    chipping.on_bus_event(
        "system",
        &FlighthookEvent::set_mode(ShotDetectionMode::Chipping),
        &mut drained,
    );
    chipping.on_bus_event("mevo.0", &FlighthookEvent::shot(shot.clone()), &mut drained);
    assert_eq!(drained.shots_to_send.len(), 1);
    let sent = drained.shots_to_send.remove(0);
    let message = report(&sent);
    assert!((n(message.club_data.speed) - 25.0 * 2.23694).abs() < 1e-9);
    assert!((n(message.ball_data.carry_distance.unwrap()) - 27.0 / 0.9144).abs() < 1e-9);
    assert!(message.shot_data_options.contains_club_data);
    assert!(!message.shot_data_options.is_heart_beat);

    let mut full = BridgeState::new(routed_to("mevo.0"), 0);
    let mut drained = Drained::new();
    full.on_bus_event("mevo.0", &FlighthookEvent::shot(shot), &mut drained);
    assert!(drained.shots_to_send.is_empty());
}

#[test]
fn a_shot_of_a_monitor_that_is_not_routed_is_left_out() {
    let mut bridge = BridgeState::new(routed_to("mevo.1"), 0);
    let mut session = DeviceSession::new(ShotDetectionMode::Full, SessionConfig::default());
    let shot = swing(
        &mut session,
        vec![text("BALL TRIGGER"), DeviceMessage::FlightResult(full_flight()), text("PROCESSED")],
        "mevo.0",
    );
    let mut drained = Drained::new();
    bridge.on_bus_event("mevo.0", &FlighthookEvent::shot(shot), &mut drained);
    assert!(drained.shots_to_send.is_empty());
    assert_eq!(bridge.routing.target(bridge.current_mode), &Some("mevo.1".to_string()));
}

#[test]
fn choosing_the_putter_puts_the_device_and_the_bridge_in_putting_mode() {
    let (mut game, writer) = GameState::new();
    let command = GameStateCommandEvent::SetClubInfo { club_info: ClubInfo { club: Club::Putter } };
    let published = apply_game_command(&writer, &mut game, &command).expect("nothing published");
    assert_eq!(game.snapshot().mode, Some(ShotDetectionMode::Putting));
    assert_eq!(game.snapshot().club_info, Some(ClubInfo { club: Club::Putter }));

    let mut session = DeviceSession::new(ShotDetectionMode::Full, SessionConfig::default());
    let step = session.on_bus(&BusPoll::Message(published.clone()));
    assert_eq!(step.next, Next::Rearm { mode: ShotDetectionMode::Putting });
    assert_eq!(step.publish.len(), 2);
    assert_eq!(session.current_mode, ShotDetectionMode::Full);
    let step = session.on_rearmed(&Ok(()));
    assert_eq!(step.next, Next::Continue);
    assert_eq!(session.current_mode, ShotDetectionMode::Putting);

    let routing = GsProRouting {
        full_monitor: Some("mevo.0".to_string()),
        chipping_monitor: None,
        putting_monitor: Some("mevo.1".to_string()),
    };
    let mut bridge = BridgeState::new(routing, 0);
    let mut drained = Drained::new();
    bridge.on_bus_event("mevo.0", &FlighthookEvent::ready_state(true, true), &mut drained);
    let first = bridge.heartbeat(drained.readiness_changed, 10).expect("no heartbeat");
    assert!(first.shot_data_options.launch_monitor_is_ready);
    assert_eq!(bridge.prev_readiness, Readiness { armed: true, ball_detected: true });

    let mut drained = Drained::new();
    bridge.on_bus_event("system", &published, &mut drained);
    assert!(drained.readiness_changed);
    assert_eq!(bridge.current_mode, ShotDetectionMode::Putting);
    let beat = bridge.heartbeat(drained.readiness_changed, 20).expect("no heartbeat");
    assert!(beat.shot_data_options.is_heart_beat);
    assert!(!beat.shot_data_options.launch_monitor_is_ready);
    assert!(!beat.shot_data_options.launch_monitor_ball_detected);
    assert!(bridge.heartbeat(false, 30).is_none());
}
