use minigame::{
    handle_broadcast_to_ws, handle_websocket, handle_ws_to_broadcast, heartbeat_task, Car,
    CloseReason, ConnectRequest, Duty, ForwardStep, HeartbeatStep, HubError, Inbound,
    InnerAppState, MessageResponse, MessageType, Outbound, Player, ReaderStep, Received, Room,
    Session, SessionState,
};
use tokio::sync::broadcast::error::TryRecvError;

fn request(player_id: i32, room_id: i32, car_id: i32) -> ConnectRequest {
    ConnectRequest {
        player_id,
        room_id,
        player_name: format!("p{}", player_id),
        car_id,
        weather_id: 1,
        background_id: 2,
        skin_id: 3,
    }
}

fn player(player_id: i32, car_id: i32) -> Player {
    Player {
        player_id,
        player_name: format!("p{}", player_id),
        car_id,
        weather_id: 1,
        background_id: 2,
    }
}

fn hub_with_room(room_id: i32) -> InnerAppState {
    let mut hub = InnerAppState::new();
    assert_eq!(hub.create(Room::new(room_id, 0, 0)), Ok(()));
    hub
}

fn drain(session: &mut Session) {
    assert!(!session.duty_finished(Duty::Reader));
    assert!(!session.duty_finished(Duty::Heartbeat));
    assert!(session.duty_finished(Duty::Forwarder));
}

#[test]
fn new_session_is_handshaking() {
    let session = Session::new(7, 42);
    assert_eq!(
        session,
        Session {
            player_id: 7,
            room_id: 42,
            state: SessionState::Handshaking,
            reader_done: false,
            forwarder_done: false,
            heartbeat_done: false,
        }
    );
    assert!(!session.is_host());
    assert!(Session::new(42, 42).is_host());
}

#[test]
fn handle_websocket_joins_existing_room() {
    let mut hub = hub_with_room(42);
    let (session, snapshot) = handle_websocket(&mut hub, &request(7, 42, 1)).unwrap();
    assert_eq!(session.state, SessionState::Joined);
    assert_eq!(session.player_id, 7);
    assert_eq!(session.room_id, 42);
    assert_eq!(snapshot.players, vec![player(7, 1)]);
    assert_eq!(snapshot.cars, vec![Car { car_id: 1, skin_id: 3, player_ids: vec![7] }]);
    assert_eq!(hub.get(42), Ok(snapshot));
}

#[test]
fn handle_websocket_fails_closed_without_room() {
    let mut hub = hub_with_room(42);
    assert_eq!(handle_websocket(&mut hub, &request(7, 41, 1)).unwrap_err(), HubError::NotFound);
    assert!(!hub.contains(41));
    assert_eq!(hub.get(42), Ok(Room::new(42, 0, 0)));
}

#[test]
fn join_on_missing_room_ends_the_session() {
    let mut hub = InnerAppState::new();
    let mut session = Session::new(7, 42);
    assert_eq!(session.join(&mut hub, player(7, 1), 0), Err(HubError::NotFound));
    assert_eq!(session.state, SessionState::Terminated);
    assert!(!session.reconcile(&mut hub));
}

#[test]
fn join_twice_is_refused() {
    let mut hub = hub_with_room(42);
    let mut session = Session::new(7, 42);
    assert!(session.join(&mut hub, player(7, 1), 0).is_ok());
    assert_eq!(session.join(&mut hub, player(7, 1), 0), Err(HubError::AlreadyJoined));
    assert_eq!(session.state, SessionState::Joined);
    assert_eq!(hub.get(42).unwrap().players.len(), 1);
}

#[test]
fn announce_publishes_current_snapshot() {
    let mut hub = hub_with_room(42);
    let mut watcher = hub.subscribe(42).unwrap();
    let (session, snapshot) = handle_websocket(&mut hub, &request(7, 42, 1)).unwrap();
    assert!(matches!(watcher.try_recv(), Err(TryRecvError::Empty)));
    assert_eq!(session.announce(&mut hub), Ok(()));
    assert_eq!(watcher.try_recv().unwrap(), MessageType::Sync(snapshot));
}

#[test]
fn announce_without_room_fails_with_not_found() {
    let mut hub = InnerAppState::new();
    let session = Session::new(7, 42);
    assert_eq!(session.announce(&mut hub), Err(HubError::NotFound));
}

#[test]
fn first_finished_duty_starts_draining() {
    let mut hub = hub_with_room(42);
    let (mut session, _) = handle_websocket(&mut hub, &request(7, 42, 1)).unwrap();
    assert!(!session.duty_finished(Duty::Heartbeat));
    assert_eq!(session.state, SessionState::Draining);
    assert!(session.heartbeat_done);
    assert!(!session.reader_done);
    assert!(!session.reconcile(&mut hub));
    assert_eq!(session.state, SessionState::Draining);
    assert!(!session.duty_finished(Duty::Heartbeat));
    assert!(!session.duty_finished(Duty::Reader));
    assert!(session.duty_finished(Duty::Forwarder));
}

#[test]
fn duty_finished_before_join_changes_nothing() {
    let mut session = Session::new(7, 42);
    assert!(!session.duty_finished(Duty::Reader));
    assert_eq!(session, Session::new(7, 42));
}

#[test]
fn reconcile_runs_exactly_once() {
    let mut hub = hub_with_room(42);
    let (mut session, _) = handle_websocket(&mut hub, &request(7, 42, 1)).unwrap();
    drain(&mut session);
    let mut rx = hub.subscribe(42).unwrap();
    assert!(session.reconcile(&mut hub));
    assert_eq!(session.state, SessionState::Terminated);
    assert_eq!(rx.try_recv().unwrap(), MessageType::Quit(7, 42));
    assert!(!session.reconcile(&mut hub));
    assert!(matches!(rx.try_recv(), Err(TryRecvError::Empty)));
    assert!(!session.duty_finished(Duty::Reader));
    assert_eq!(session.state, SessionState::Terminated);
}

#[test]
fn reconcile_of_guest_removes_player_and_keeps_room() {
    let mut hub = hub_with_room(42);
    let (_host, _) = handle_websocket(&mut hub, &request(42, 42, 2)).unwrap();
    let (mut guest, _) = handle_websocket(&mut hub, &request(7, 42, 1)).unwrap();
    let (_other, _) = handle_websocket(&mut hub, &request(8, 42, 3)).unwrap();
    hub.record_pong(7, 5);
    hub.expect_closure(7);
    hub.record_pong(8, 6);
    drain(&mut guest);
    assert!(guest.reconcile(&mut hub));
    assert!(hub.contains(42));
    assert!(hub.has_channel(42));
    let room = hub.get(42).unwrap();
    assert_eq!(room.players, vec![player(42, 2), player(8, 3)]);
    assert_eq!(
        room.cars,
        vec![
            Car { car_id: 2, skin_id: 3, player_ids: vec![42] },
            Car { car_id: 3, skin_id: 3, player_ids: vec![8] },
        ]
    );
    assert!(!hub.closure_expected(7));
    assert_eq!(hub.last_pong_or(7, 99), 99);
    assert_eq!(hub.last_pong_or(8, 99), 6);
}

#[test]
fn reconcile_of_host_removes_room_and_channel() {
    let mut hub = hub_with_room(42);
    assert_eq!(hub.create(Room::new(43, 0, 0)), Ok(()));
    let (mut host, _) = handle_websocket(&mut hub, &request(42, 42, 2)).unwrap();
    let (_guest, _) = handle_websocket(&mut hub, &request(7, 42, 1)).unwrap();
    let (_other, _) = handle_websocket(&mut hub, &request(8, 42, 3)).unwrap();
    let mut rx = hub.subscribe(42).unwrap();
    hub.record_pong(42, 5);
    drain(&mut host);
    assert!(host.reconcile(&mut hub));
    assert!(!hub.contains(42));
    assert!(!hub.has_channel(42));
    assert!(hub.contains(43));
    assert!(hub.has_channel(43));
    assert!(hub.closure_expected(7));
    assert!(hub.closure_expected(8));
    assert!(!hub.closure_expected(42));
    assert_eq!(hub.last_pong_or(42, 77), 77);
    assert!(matches!(rx.try_recv(), Err(TryRecvError::Closed)));
    let step = handle_broadcast_to_ws(&hub, 7, &Received::Closed);
    assert_eq!(
        step,
        ForwardStep { frames: vec![Outbound::Close(CloseReason::Forced)], done: true }
    );
}

#[test]
fn reconcile_of_guest_after_room_is_gone_only_clears_liveness() {
    let mut hub = hub_with_room(42);
    let (mut guest, _) = handle_websocket(&mut hub, &request(7, 42, 1)).unwrap();
    hub.expect_closure(7);
    assert!(hub.remove(42));
    drain(&mut guest);
    assert!(guest.reconcile(&mut hub));
    assert!(!hub.contains(42));
    assert!(!hub.has_channel(42));
    assert!(!hub.closure_expected(7));
}

#[test]
fn reader_publishes_text_and_emoji() {
    let mut hub = hub_with_room(42);
    let mut rx = hub.subscribe(42).unwrap();
    let text = Inbound::Text(r#"{"player_id": 7, "content": "hi", "mes_type": "text"}"#.to_string());
    assert_eq!(handle_ws_to_broadcast(&mut hub, 42, 7, 0, &text), ReaderStep::Continue);
    let emoji =
        Inbound::Text(r#"{"mes_type":"emoji","content":"😀","player_id":9}"#.to_string());
    assert_eq!(handle_ws_to_broadcast(&mut hub, 42, 7, 0, &emoji), ReaderStep::Continue);
    assert_eq!(
        rx.try_recv().unwrap(),
        MessageType::Text(MessageResponse { player_id: 7, content: "hi".to_string() })
    );
    assert_eq!(
        rx.try_recv().unwrap(),
        MessageType::Emoji(MessageResponse { player_id: 9, content: "\u{1F600}".to_string() })
    );
}

#[test]
fn reader_skips_malformed_frames() {
    let mut hub = hub_with_room(42);
    let mut rx = hub.subscribe(42).unwrap();
    let frames = [
        "not json",
        "",
        "[1, 2]",
        r#"{"content": "hi", "mes_type": "text"}"#,
        r#"{"player_id": "7", "content": "hi", "mes_type": "text"}"#,
        r#"{"player_id": 7.5, "content": "hi", "mes_type": "text"}"#,
        r#"{"player_id": 7, "mes_type": "text"}"#,
        r#"{"player_id": 7, "content": 5, "mes_type": "text"}"#,
        r#"{"player_id": 7, "content": "hi"}"#,
        r#"{"player_id": 7, "content": "hi", "mes_type": "video"}"#,
        r#"{"player_id": 7, "content": "hi", "mes_type": "TEXT"}"#,
    ];
    for frame in frames {
        let step = handle_ws_to_broadcast(&mut hub, 42, 7, 0, &Inbound::Text(frame.to_string()));
        assert_eq!(step, ReaderStep::Continue);
    }
    assert!(matches!(rx.try_recv(), Err(TryRecvError::Empty)));
}

#[test]
fn reader_skips_a_frame_whose_player_id_does_not_fit() {
    let mut hub = hub_with_room(42);
    let mut rx = hub.subscribe(42).unwrap();
    for id in ["4294967303", "2147483648", "-2147483649", "9223372036854775807"] {
        let text = format!(r#"{{"player_id": {}, "content": "hi", "mes_type": "text"}}"#, id);
        let step = handle_ws_to_broadcast(&mut hub, 42, 7, 0, &Inbound::Text(text));
        assert_eq!(step, ReaderStep::Continue);
    }
    assert_eq!(handle_ws_to_broadcast(&mut hub, 42, 7, 0, &Inbound::Ended), ReaderStep::Stop);
    assert!(matches!(rx.try_recv(), Err(TryRecvError::Empty)));
    let text = r#"{"player_id": -2147483648, "content": "hi", "mes_type": "text"}"#.to_string();
    assert_eq!(handle_ws_to_broadcast(&mut hub, 42, 7, 0, &Inbound::Text(text)), ReaderStep::Continue);
    assert_eq!(
        rx.try_recv().unwrap(),
        MessageType::Text(MessageResponse { player_id: i32::MIN, content: "hi".to_string() })
    );
}

#[test]
fn reader_text_without_channel_changes_nothing() {
    let mut hub = InnerAppState::new();
    let text = Inbound::Text(r#"{"player_id": 7, "content": "hi", "mes_type": "text"}"#.to_string());
    assert_eq!(handle_ws_to_broadcast(&mut hub, 42, 7, 0, &text), ReaderStep::Continue);
    assert!(!hub.contains(42));
}

#[test]
fn reader_records_pong_time() {
    let mut hub = hub_with_room(42);
    assert_eq!(handle_ws_to_broadcast(&mut hub, 42, 7, 123, &Inbound::Pong), ReaderStep::Continue);
    assert_eq!(hub.last_pong_or(7, 999), 123);
}

#[test]
fn reader_ignores_binary_and_ping() {
    let mut hub = hub_with_room(42);
    let mut rx = hub.subscribe(42).unwrap();
    assert_eq!(handle_ws_to_broadcast(&mut hub, 42, 7, 5, &Inbound::Binary), ReaderStep::Continue);
    assert_eq!(handle_ws_to_broadcast(&mut hub, 42, 7, 5, &Inbound::Ping), ReaderStep::Continue);
    assert!(matches!(rx.try_recv(), Err(TryRecvError::Empty)));
    assert_eq!(hub.last_pong_or(7, 999), 999);
}

#[test]
fn reader_stops_when_transport_ended() {
    let mut hub = hub_with_room(42);
    assert_eq!(handle_ws_to_broadcast(&mut hub, 42, 7, 5, &Inbound::Ended), ReaderStep::Stop);
    assert!(!hub.closure_expected(7));
}

#[test]
fn reader_close_of_guest_expects_own_closure_and_publishes_quit() {
    let mut hub = hub_with_room(42);
    let _ = handle_websocket(&mut hub, &request(7, 42, 1)).unwrap();
    let mut rx = hub.subscribe(42).unwrap();
    assert_eq!(handle_ws_to_broadcast(&mut hub, 42, 7, 5, &Inbound::Close), ReaderStep::Stop);
    assert!(hub.closure_expected(7));
    assert_eq!(rx.try_recv().unwrap(), MessageType::Quit(7, 42));
    assert!(matches!(rx.try_recv(), Err(TryRecvError::Empty)));
    assert_eq!(hub.get(42).unwrap().players.len(), 1);
}

#[test]
fn reader_close_of_host_cascades_to_every_occupant() {
    let mut hub = hub_with_room(42);
    let _ = handle_websocket(&mut hub, &request(42, 42, 2)).unwrap();
    let _ = handle_websocket(&mut hub, &request(7, 42, 1)).unwrap();
    let _ = handle_websocket(&mut hub, &request(8, 42, 3)).unwrap();
    let mut rx = hub.subscribe(42).unwrap();
    assert_eq!(handle_ws_to_broadcast(&mut hub, 42, 42, 5, &Inbound::Close), ReaderStep::Stop);
    assert!(hub.closure_expected(7));
    assert!(hub.closure_expected(8));
    assert!(!hub.closure_expected(42));
    assert_eq!(rx.try_recv().unwrap(), MessageType::Quit(7, 42));
    assert_eq!(rx.try_recv().unwrap(), MessageType::Quit(8, 42));
    assert!(matches!(rx.try_recv(), Err(TryRecvError::Empty)));
    assert!(hub.contains(42));
}

#[test]
fn reader_close_of_host_without_room_stops_and_changes_nothing() {
    let mut hub = InnerAppState::new();
    assert_eq!(handle_ws_to_broadcast(&mut hub, 42, 42, 5, &Inbound::Close), ReaderStep::Stop);
    assert!(!hub.closure_expected(42));
    assert!(!hub.contains(42));
}

#[test]
fn forwarder_writes_text_frames_for_chat_events() {
    let mut hub = hub_with_room(42);
    let said = MessageResponse { player_id: 7, content: "hi \"there\"".to_string() };
    let step = handle_broadcast_to_ws(&hub, 8, &Received::Event(MessageType::Text(said.clone())));
    assert_eq!(
        step,
        ForwardStep {
            frames: vec![Outbound::Text(
                r#"{"content":"hi \"there\"","player_id":7,"type":"text"}"#.to_string()
            )],
            done: false,
        }
    );
    let step = handle_broadcast_to_ws(&hub, 8, &Received::Event(MessageType::Emoji(said)));
    assert_eq!(
        step.frames,
        vec![Outbound::Text(r#"{"content":"hi \"there\"","player_id":7,"type":"emoji"}"#.to_string())]
    );
    assert!(!step.done);
}

#[test]
fn forwarder_writes_sync_verbatim() {
    let mut hub = hub_with_room(42);
    let mut room = Room::new(42, 5, 6);
    room.join(player(7, 1), 3);
    let step = handle_broadcast_to_ws(&hub, 8, &Received::Event(MessageType::Sync(room)));
    let mut expected = String::new();
    expected.push_str(r#"{"room_info":{"background_id":6,"#);
    expected.push_str(r#""cars":[{"car_id":1,"player_ids":[7],"skin_id":3}],"#);
    expected.push_str(r#""players":[{"background_id":2,"car_id":1,"player_id":7,"#);
    expected.push_str(r#""player_name":"p7","weather_id":1}],"#);
    expected.push_str(r#""room_id":42,"weather_id":5},"type":"sync"}"#);
    assert_eq!(step, ForwardStep { frames: vec![Outbound::Text(expected)], done: false });
}

#[test]
fn forwarder_passes_over_quit_of_another_player() {
    let mut hub = hub_with_room(42);
    let mut rx = hub.subscribe(42).unwrap();
    hub.expect_closure(8);
    let step = handle_broadcast_to_ws(&hub, 8, &Received::Event(MessageType::Quit(7, 42)));
    assert_eq!(step, ForwardStep { frames: vec![], done: false });
    assert!(matches!(rx.try_recv(), Err(TryRecvError::Empty)));
}

#[test]
fn forwarder_answers_own_quit_with_fresh_snapshot_and_close() {
    let mut hub = hub_with_room(42);
    let _ = handle_websocket(&mut hub, &request(8, 42, 3)).unwrap();
    let mut rx = hub.subscribe(42).unwrap();
    hub.expect_closure(7);
    let step = handle_broadcast_to_ws(&hub, 7, &Received::Event(MessageType::Quit(7, 42)));
    let snapshot = minigame::wire::encode_sync(&hub.get(42).unwrap());
    assert_eq!(
        step,
        ForwardStep {
            frames: vec![Outbound::Text(snapshot.clone()), Outbound::Close(CloseReason::UserQuit)],
            done: true,
        }
    );
    let room = minigame::wire::decode_sync(&snapshot).unwrap();
    assert_eq!(room.players, vec![player(8, 3)]);
    assert!(matches!(rx.try_recv(), Err(TryRecvError::Empty)));
}

#[test]
fn forwarder_answers_own_quit_with_snapshot_alone_when_not_expected() {
    let mut hub = hub_with_room(42);
    let mut rx = hub.subscribe(42).unwrap();
    let step = handle_broadcast_to_ws(&hub, 7, &Received::Event(MessageType::Quit(7, 42)));
    let mut expected = String::new();
    expected.push_str(r#"{"room_info":{"background_id":0,"cars":[],"players":[],"#);
    expected.push_str(r#""room_id":42,"weather_id":0},"type":"sync"}"#);
    assert_eq!(step, ForwardStep { frames: vec![Outbound::Text(expected)], done: true });
    assert!(matches!(rx.try_recv(), Err(TryRecvError::Empty)));
}

#[test]
fn forwarder_answers_own_quit_without_room_with_the_close_alone() {
    let mut hub = InnerAppState::new();
    hub.expect_closure(7);
    let step = handle_broadcast_to_ws(&hub, 7, &Received::Event(MessageType::Quit(7, 42)));
    assert_eq!(
        step,
        ForwardStep { frames: vec![Outbound::Close(CloseReason::UserQuit)], done: true }
    );
    hub.forget(7);
    let step = handle_broadcast_to_ws(&hub, 7, &Received::Event(MessageType::Quit(7, 42)));
    assert_eq!(step, ForwardStep { frames: vec![], done: true });
}

#[test]
fn forwarder_snapshot_on_own_quit_is_read_at_that_moment() {
    let mut hub = hub_with_room(42);
    let _ = handle_websocket(&mut hub, &request(42, 42, 2)).unwrap();
    let _ = handle_websocket(&mut hub, &request(7, 42, 1)).unwrap();
    let mut rx = hub.subscribe(42).unwrap();
    let quit = minigame::QuitRoomRequest { room_id: 42, player_id: 7 };
    assert_eq!(minigame::quit_room(&mut hub, &quit), Ok(()));
    let _ = handle_websocket(&mut hub, &request(9, 42, 4)).unwrap();
    let got = Received::Event(rx.try_recv().unwrap());
    let step = handle_broadcast_to_ws(&hub, 7, &got);
    assert_eq!(step.frames.len(), 2);
    assert!(step.done);
    match &step.frames[0] {
        Outbound::Text(text) => {
            let room = minigame::wire::decode_sync(text).unwrap();
            assert_eq!(room, hub.get(42).unwrap());
            assert_eq!(room.players, vec![player(42, 2), player(9, 4)]);
        },
        other => panic!("unexpected {:?}", other),
    }
    assert_eq!(step.frames[1], Outbound::Close(CloseReason::UserQuit));
}

#[test]
fn forwarder_absorbs_lag() {
    let mut hub = hub_with_room(42);
    let step = handle_broadcast_to_ws(&hub, 7, &Received::Lagged(12));
    assert_eq!(step, ForwardStep { frames: vec![], done: false });
}

#[test]
fn forwarder_sends_forced_close_on_closed_channel() {
    let mut hub = InnerAppState::new();
    let step = handle_broadcast_to_ws(&hub, 7, &Received::Closed);
    assert_eq!(
        step,
        ForwardStep { frames: vec![Outbound::Close(CloseReason::Forced)], done: true }
    );
}

#[test]
fn close_reasons_have_code_and_text() {
    assert_eq!(CloseReason::UserQuit.code(), 1000);
    assert_eq!(CloseReason::UserQuit.reason(), "User quit");
    assert_eq!(CloseReason::Forced.code(), 1008);
    assert_eq!(CloseReason::Forced.reason(), "inactivetimeout");
}

#[test]
fn heartbeat_first_tick_counts_as_just_connected() {
    let mut hub = InnerAppState::new();
    assert_eq!(heartbeat_task(&mut hub, 7, 1000), HeartbeatStep::Probe);
    assert_eq!(hub.last_pong_or(7, 0), 1000);
}

#[test]
fn heartbeat_probes_up_to_the_threshold_and_gives_up_beyond() {
    let mut hub = InnerAppState::new();
    hub.record_pong(7, 100);
    assert_eq!(heartbeat_task(&mut hub, 7, 105), HeartbeatStep::Probe);
    assert_eq!(heartbeat_task(&mut hub, 7, 110), HeartbeatStep::Probe);
    assert_eq!(heartbeat_task(&mut hub, 7, 111), HeartbeatStep::Dead);
    assert_eq!(heartbeat_task(&mut hub, 7, u64::MAX), HeartbeatStep::Dead);
    assert_eq!(hub.last_pong_or(7, 0), 100);
}

#[test]
fn heartbeat_with_clock_behind_last_pong_probes() {
    let mut hub = InnerAppState::new();
    hub.record_pong(7, 100);
    assert_eq!(heartbeat_task(&mut hub, 7, 50), HeartbeatStep::Probe);
}

#[test]
fn heartbeat_never_ends_while_pongs_keep_arriving() {
    let mut hub = InnerAppState::new();
    let mut now = 0;
    for _ in 0..50 {
        assert_eq!(heartbeat_task(&mut hub, 7, now), HeartbeatStep::Probe);
        now += minigame::handlers::websocket::HEARTBEAT_INTERVAL;
        assert_eq!(handle_ws_to_broadcast(&mut hub, 42, 7, now - 1, &Inbound::Pong), ReaderStep::Continue);
    }
}

#[test]
fn stale_connection_is_given_up_and_reconciled() {
    let mut hub = hub_with_room(42);
    let _ = handle_websocket(&mut hub, &request(42, 42, 2)).unwrap();
    let (mut guest, _) = handle_websocket(&mut hub, &request(7, 42, 1)).unwrap();
    assert_eq!(heartbeat_task(&mut hub, 7, 0), HeartbeatStep::Probe);
    assert_eq!(heartbeat_task(&mut hub, 7, 5), HeartbeatStep::Probe);
    assert_eq!(heartbeat_task(&mut hub, 7, 10), HeartbeatStep::Probe);
    assert_eq!(heartbeat_task(&mut hub, 7, 15), HeartbeatStep::Dead);
    assert!(!guest.duty_finished(Duty::Heartbeat));
    assert!(!guest.duty_finished(Duty::Reader));
    assert!(guest.duty_finished(Duty::Forwarder));
    assert!(guest.reconcile(&mut hub));
    assert_eq!(hub.get(42).unwrap().players, vec![player(42, 2)]);
    assert_eq!(hub.last_pong_or(7, 500), 500);
}

#[test]
fn abandon_reconciles_a_joined_session_at_once() {
    let mut hub = hub_with_room(42);
    let _ = handle_websocket(&mut hub, &request(42, 42, 2)).unwrap();
    let (mut guest, _) = handle_websocket(&mut hub, &request(7, 42, 1)).unwrap();
    hub.record_pong(7, 3);
    assert!(guest.abandon(&mut hub));
    assert_eq!(guest.state, SessionState::Terminated);
    assert!(guest.reader_done && guest.forwarder_done && guest.heartbeat_done);
    assert_eq!(hub.get(42).unwrap().players, vec![player(42, 2)]);
    assert_eq!(hub.last_pong_or(7, 50), 50);
    assert!(!guest.abandon(&mut hub));
}

#[test]
fn abandon_before_join_does_nothing() {
    let mut hub = hub_with_room(42);
    let mut session = Session::new(7, 42);
    assert!(!session.abandon(&mut hub));
    assert_eq!(session, Session::new(7, 42));
    assert_eq!(hub.get(42), Ok(Room::new(42, 0, 0)));
}

#[test]
fn host_close_in_a_room_of_the_host_alone_publishes_nothing() {
    let mut hub = hub_with_room(42);
    let _ = handle_websocket(&mut hub, &request(42, 42, 2)).unwrap();
    let mut rx = hub.subscribe(42).unwrap();
    assert_eq!(handle_ws_to_broadcast(&mut hub, 42, 42, 5, &Inbound::Close), ReaderStep::Stop);
    assert!(matches!(rx.try_recv(), Err(TryRecvError::Empty)));
    assert!(!hub.closure_expected(42));
}

#[test]
fn failed_write_ends_the_forwarder() {
    let text = ForwardStep { frames: vec![Outbound::Text("x".to_string())], done: false };
    assert!(!text.ended(true));
    assert!(text.ended(false));
    let nothing = ForwardStep { frames: vec![], done: false };
    assert!(!nothing.ended(true));
    assert!(!nothing.ended(false));
    let close = ForwardStep { frames: vec![Outbound::Close(CloseReason::Forced)], done: true };
    assert!(close.ended(true));
    assert!(close.ended(false));
    let quiet_end = ForwardStep { frames: vec![], done: true };
    assert!(quiet_end.ended(true));
    let farewell = ForwardStep {
        frames: vec![Outbound::Text("x".to_string()), Outbound::Close(CloseReason::UserQuit)],
        done: true,
    };
    assert!(farewell.ended(true));
    assert!(farewell.ended(false));
}

#[test]
fn failed_probe_ends_the_heartbeat() {
    assert!(!HeartbeatStep::Probe.ended(true));
    assert!(HeartbeatStep::Probe.ended(false));
    assert!(HeartbeatStep::Dead.ended(true));
    assert!(HeartbeatStep::Dead.ended(false));
}

#[test]
fn change_car_with_two_cars_of_one_number_seats_the_player_once() {
    let mut hub = hub_with_room(42);
    let _ = handle_websocket(&mut hub, &request(7, 42, 1)).unwrap();
    let _ = handle_websocket(&mut hub, &request(8, 42, 1)).unwrap();
    let change = minigame::ChangeCarRequest { room_id: 42, player_id: 8, car_id: 1 };
    assert_eq!(minigame::change_car(&mut hub, &change), Ok(()));
    let room = hub.get(42).unwrap();
    assert_eq!(
        room.cars,
        vec![
            Car { car_id: 1, skin_id: 3, player_ids: vec![7, 8] },
            Car { car_id: 1, skin_id: 3, player_ids: vec![] },
        ]
    );
}
