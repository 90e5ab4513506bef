use flighthook::actors::mock::launch::{mode_str, telemetry, MockLaunch};
use flighthook::actors::mock::randomclub::{
    emit_status, next_rand, now_ms, on_shot, on_start, pick_club, pick_hand,
};
use flighthook::bus::{poll_gate, poll_next, poll_step, PollNext, PollStep, Received, MAX_LAG_RETRIES};
use flighthook::{
    BusReceiver, BusSender, Club, FlighthookEvent, FlighthookMessage, GameStateCommandEvent,
    PollError, ShotDetectionMode,
};
use std::sync::atomic::{AtomicBool, Ordering};
use std::sync::Arc;

fn mode_of(m: &FlighthookMessage) -> ShotDetectionMode {
    match &m.event {
        FlighthookEvent::GameStateCommand(c) => match c.event {
            GameStateCommandEvent::SetMode { mode } => mode,
            _ => panic!("no mode"),
        },
        _ => panic!("no command"),
    }
}

fn set_mode(mode: ShotDetectionMode) -> FlighthookMessage {
    FlighthookMessage::new(FlighthookEvent::set_mode(mode))
}

#[test]
fn every_message_carries_its_sender_as_source() {
    let (tx, _keep) = tokio::sync::broadcast::channel::<FlighthookMessage>(16);
    let flag = Arc::new(AtomicBool::new(false));
    let sender = BusSender::new("mevo.0".to_string(), tx, flag);
    assert_eq!(sender.actor_id(), "mevo.0");
    let mut receiver = sender.subscribe();
    assert!(matches!(receiver.poll(), Ok(None)));
    let forged = set_mode(ShotDetectionMode::Putting).source("someone.else".to_string());
    let made = forged.timestamp;
    sender.send(forged);
    sender.duplicate().send(set_mode(ShotDetectionMode::Chipping));
    let first = receiver.poll().unwrap().unwrap();
    assert_eq!(first.source, "mevo.0");
    assert_eq!(first.timestamp, made);
    assert_eq!(mode_of(&first), ShotDetectionMode::Putting);
    let second = receiver.poll().unwrap().unwrap();
    assert_eq!(second.source, "mevo.0");
    assert!(second.timestamp.not_before(first.timestamp));
    assert_eq!(mode_of(&second), ShotDetectionMode::Chipping);
    assert!(matches!(receiver.poll(), Ok(None)));
    let stamped = sender.stamp(set_mode(ShotDetectionMode::Full));
    assert_eq!(stamped.source, "mevo.0");
}

#[test]
fn sending_without_listeners_drops_the_message() {
    let (tx, rx) = tokio::sync::broadcast::channel::<FlighthookMessage>(4);
    drop(rx);
    let sender = BusSender::new("web.0".to_string(), tx, Arc::new(AtomicBool::new(false)));
    sender.send(set_mode(ShotDetectionMode::Full));
    let mut late = sender.subscribe();
    assert!(matches!(late.poll(), Ok(None)));
}

#[test]
fn the_flag_and_the_closed_bus_stop_the_receiver() {
    let (tx, _keep) = tokio::sync::broadcast::channel::<FlighthookMessage>(4);
    let flag = Arc::new(AtomicBool::new(false));
    let sender = BusSender::new("gspro.0".to_string(), tx.clone(), Arc::clone(&flag));
    let mut receiver = sender.subscribe();
    assert!(!receiver.is_shutdown());
    sender.send(set_mode(ShotDetectionMode::Full));
    flag.store(true, Ordering::Relaxed);
    assert!(receiver.is_shutdown());
    assert_eq!(receiver.poll().err(), Some(PollError::Shutdown));

    let (tx, rx) = tokio::sync::broadcast::channel::<FlighthookMessage>(4);
    let mut own = BusReceiver::from_receiver(rx);
    assert!(!own.is_shutdown());
    let _ = tx.send(set_mode(ShotDetectionMode::Putting));
    drop(tx);
    assert_eq!(mode_of(&own.poll().unwrap().unwrap()), ShotDetectionMode::Putting);
    assert_eq!(own.poll().err(), Some(PollError::Shutdown));
}

#[test]
fn a_receiver_that_fell_behind_goes_on_with_what_is_left() {
    let (tx, _keep) = tokio::sync::broadcast::channel::<FlighthookMessage>(4);
    let sender = BusSender::new("mevo.0".to_string(), tx, Arc::new(AtomicBool::new(false)));
    let mut receiver = sender.subscribe();
    for n in 0..2000 {
        let mode =
            if n == 1999 { ShotDetectionMode::Putting } else { ShotDetectionMode::Chipping };
        sender.send(set_mode(mode));
    }
    let mut seen = 0;
    let mut last = None;
    while let Some(m) = receiver.poll().unwrap() {
        seen += 1;
        last = Some(mode_of(&m));
    }
    assert_eq!(seen, 4);
    assert_eq!(last, Some(ShotDetectionMode::Putting));
    sender.send(set_mode(ShotDetectionMode::Full));
    assert_eq!(mode_of(&receiver.poll().unwrap().unwrap()), ShotDetectionMode::Full);
}

#[test]
fn a_poll_sorts_what_the_channel_gave() {
    assert!(matches!(poll_step(Received::Empty), PollStep::Empty));
    assert!(matches!(poll_step(Received::Closed), PollStep::Shutdown));
    assert!(matches!(poll_step(Received::Lagged(976)), PollStep::Retry));
    let m = set_mode(ShotDetectionMode::Full);
    assert!(matches!(poll_step(Received::Message(m)), PollStep::Deliver(_)));
}

#[test]
fn the_generator_follows_its_recurrence() {
    let mut seed = 42u64;
    let r = next_rand(&mut seed);
    let expected = 42u64.wrapping_mul(6364136223846793005).wrapping_add(1442695040888963407);
    assert_eq!(seed, expected);
    assert_eq!(r, (expected >> 33) as usize);
    let mut seed = u64::MAX;
    let r = next_rand(&mut seed);
    assert_eq!(seed, u64::MAX.wrapping_mul(6364136223846793005).wrapping_add(1442695040888963407));
    assert!(r < (1usize << 31));
    assert!(now_ms() > 1_600_000_000_000);
}

#[test]
fn draws_pick_a_club_and_a_hand() {
    assert_eq!(pick_hand(0), "RH");
    assert_eq!(pick_hand(7), "LH");
    assert_eq!(pick_club(0), Club::Driver);
    assert_eq!(pick_club(18), Club::Putter);
    assert_eq!(pick_club(19), Club::Driver);
    assert_eq!(pick_club(20), Club::Wood3);
    let out = emit_status(Club::Iron8, "LH");
    assert_eq!(out.len(), 3);
    match &out[0] {
        FlighthookEvent::ActorStatus(st) => {
            assert_eq!(st.telemetry.get("club").unwrap(), "8I");
            assert_eq!(st.telemetry.get("handed").unwrap(), "LH");
        }
        _ => panic!("no status"),
    }
    let mut a = 7u64;
    let mut b = 7u64;
    let started = on_start(&mut a);
    let hand = pick_hand(next_rand(&mut b));
    let club = pick_club(next_rand(&mut b));
    assert_eq!(a, b);
    assert!(matches!(
        &started[2],
        FlighthookEvent::GameStateCommand(c)
            if matches!(c.event, GameStateCommandEvent::SetClubInfo { club_info } if club_info.club == club)
    ));
    assert!(matches!(
        &started[1],
        FlighthookEvent::GameStateCommand(c)
            if matches!(&c.event, GameStateCommandEvent::SetPlayerInfo { player_info } if player_info.handed == hand)
    ));
    let cycled = on_shot(&mut a);
    let club = pick_club(next_rand(&mut b));
    let _ = next_rand(&mut b);
    assert_eq!(a, b);
    assert!(matches!(
        &cycled[2],
        FlighthookEvent::GameStateCommand(c)
            if matches!(c.event, GameStateCommandEvent::SetClubInfo { club_info } if club_info.club == club)
    ));
}

#[test]
fn the_simulated_monitor_shoots_every_thirty_seconds() {
    assert_eq!(mode_str(ShotDetectionMode::Chipping), "chipping");
    let t = telemetry(3, ShotDetectionMode::Full);
    assert_eq!(t.get("device_info").unwrap(), "Mock Launch Monitor (simulated)");
    assert_eq!(t.get("shot_count").unwrap(), "3");
    assert_eq!(t.get("tracking_mode").unwrap(), "full");
    let mut mock = MockLaunch::new(ShotDetectionMode::Full, 10_000);
    assert_eq!(mock.ready_events().len(), 2);
    assert_eq!(mock.shot_due(10_999), None);
    assert_eq!(mock.shot_due(11_000), Some(1));
    assert_eq!(mock.shot_due(40_999), None);
    assert_eq!(mock.shot_due(41_250), Some(2));
    assert_eq!(mock.next_shot_ms, 71_250);
    assert!(!mock.on_bus_event(&FlighthookEvent::set_mode(ShotDetectionMode::Full)));
    assert!(mock.on_bus_event(&FlighthookEvent::set_mode(ShotDetectionMode::Putting)));
    assert_eq!(mock.current_mode, ShotDetectionMode::Putting);
    assert!(!mock.on_bus_event(&FlighthookEvent::ready_state(true, true)));
}

#[test]
fn the_simulated_monitor_reports_its_mode_and_its_end() {
    let mut mock = MockLaunch::new(ShotDetectionMode::Full, 0);
    assert!(mock.on_bus_event(&FlighthookEvent::set_mode(ShotDetectionMode::Chipping)));
    let out = mock.mode_events();
    assert_eq!(out.len(), 1);
    match &out[0] {
        FlighthookEvent::ActorStatus(st) => {
            assert_eq!(st.status, flighthook::ActorStatus::Connected);
            assert_eq!(st.telemetry.get("tracking_mode").unwrap(), "chipping");
            assert_eq!(st.telemetry.get("shot_count").unwrap(), "0");
        }
        _ => panic!("no status"),
    }
    let out = mock.stopped_events();
    assert_eq!(out.len(), 1);
    assert!(matches!(
        &out[0],
        FlighthookEvent::ActorStatus(st)
            if st.status == flighthook::ActorStatus::Disconnected && st.telemetry.is_empty()
    ));
}

#[test]
fn the_raw_sender_is_the_channel_the_sender_was_made_on() {
    let (tx, mut plain) = tokio::sync::broadcast::channel::<FlighthookMessage>(4);
    let sender = BusSender::new("web.0".to_string(), tx, Arc::new(AtomicBool::new(false)));
    let mut receiver = sender.subscribe();
    let forged = set_mode(ShotDetectionMode::Putting).source("web".to_string());
    assert!(sender.raw_sender().send(forged).is_ok());
    let got = receiver.poll().unwrap().unwrap();
    assert_eq!(got.source, "web");
    assert_eq!(mode_of(&got), ShotDetectionMode::Putting);
    assert_eq!(mode_of(&plain.try_recv().unwrap()), ShotDetectionMode::Putting);
    assert_eq!(sender.raw_sender().receiver_count(), 2);
}

#[test]
fn a_receiver_made_from_a_plain_receiver_reads_that_receiver() {
    let (tx, rx) = tokio::sync::broadcast::channel::<FlighthookMessage>(4);
    let (other_tx, _other_rx) = tokio::sync::broadcast::channel::<FlighthookMessage>(4);
    let mut own = BusReceiver::from_receiver(rx);
    let _ = other_tx.send(set_mode(ShotDetectionMode::Full));
    assert!(matches!(own.poll(), Ok(None)));
    let _ = tx.send(set_mode(ShotDetectionMode::Chipping));
    assert_eq!(mode_of(&own.poll().unwrap().unwrap()), ShotDetectionMode::Chipping);
}

#[test]
fn every_receiver_of_a_sender_and_of_its_copies_shares_the_flag() {
    let (tx, _keep) = tokio::sync::broadcast::channel::<FlighthookMessage>(4);
    let flag = Arc::new(AtomicBool::new(false));
    let sender = BusSender::new("mevo.0".to_string(), tx, Arc::clone(&flag));
    let copy = sender.duplicate();
    let mut first = sender.subscribe();
    let mut second = copy.subscribe();
    assert!(!first.is_shutdown() && !second.is_shutdown());
    flag.store(true, Ordering::Relaxed);
    assert!(first.is_shutdown() && second.is_shutdown());
    assert_eq!(first.poll().err(), Some(PollError::Shutdown));
    assert_eq!(second.poll().err(), Some(PollError::Shutdown));
}

#[test]
fn a_set_flag_ends_a_poll_before_the_channel_is_asked() {
    assert_eq!(poll_gate(true), Some(PollError::Shutdown));
    assert_eq!(poll_gate(false), None);
    let (tx, _keep) = tokio::sync::broadcast::channel::<FlighthookMessage>(4);
    let flag = Arc::new(AtomicBool::new(false));
    let sender = BusSender::new("mevo.0".to_string(), tx, Arc::clone(&flag));
    let mut receiver = sender.subscribe();
    sender.send(set_mode(ShotDetectionMode::Full));
    sender.send(set_mode(ShotDetectionMode::Putting));
    assert_eq!(mode_of(&receiver.poll().unwrap().unwrap()), ShotDetectionMode::Full);
    flag.store(true, Ordering::Relaxed);
    assert_eq!(receiver.poll().err(), Some(PollError::Shutdown));
    flag.store(false, Ordering::Relaxed);
    assert_eq!(mode_of(&receiver.poll().unwrap().unwrap()), ShotDetectionMode::Putting);
}

#[test]
fn a_poll_goes_on_after_each_answer_as_the_rule_says() {
    assert!(matches!(poll_next(0, Received::Empty), PollNext::Done(Ok(None))));
    assert!(matches!(poll_next(7, Received::Closed), PollNext::Done(Err(PollError::Shutdown))));
    let m = set_mode(ShotDetectionMode::Chipping);
    match poll_next(3, Received::Message(m)) {
        PollNext::Done(Ok(Some(got))) => assert_eq!(mode_of(&got), ShotDetectionMode::Chipping),
        _ => panic!("not delivered"),
    }
    assert!(matches!(poll_next(0, Received::Lagged(5)), PollNext::Again(1)));
    assert!(matches!(
        poll_next(MAX_LAG_RETRIES - 1, Received::Lagged(1)),
        PollNext::Again(n) if n == MAX_LAG_RETRIES
    ));
    assert!(matches!(
        poll_next(MAX_LAG_RETRIES, Received::Lagged(1)),
        PollNext::Done(Ok(None))
    ));
}
