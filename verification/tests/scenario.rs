use minigame::{
    change_car, create_room, handle_broadcast_to_ws, handle_websocket, handle_ws_to_broadcast,
    quit_room, ChangeCarRequest, CloseReason, ConnectRequest, CreateRoomRequest, Duty, ForwardStep,
    Inbound, InnerAppState, MessageType, Outbound, QuitRoomRequest, ReaderStep, Received, Room,
};
use tokio::sync::broadcast::error::TryRecvError;

fn request(player_id: i32, room_id: i32, car_id: i32) -> ConnectRequest {
    ConnectRequest {
        player_id,
        room_id,
        player_name: format!("p{}", player_id),
        car_id,
        weather_id: 0,
        background_id: 0,
        skin_id: 0,
    }
}

fn occupants(room: &Room, car_id: i32) -> Vec<i32> {
    let cars: Vec<_> = room.cars.iter().filter(|c| c.car_id == car_id).collect();
    assert_eq!(cars.len(), 1);
    cars[0].player_ids.clone()
}

fn received(rx: &mut tokio::sync::broadcast::Receiver<MessageType>) -> Received {
    match rx.try_recv() {
        Ok(event) => Received::Event(event),
        Err(TryRecvError::Lagged(n)) => Received::Lagged(n),
        Err(TryRecvError::Closed) => Received::Closed,
        Err(TryRecvError::Empty) => panic!("nothing to receive"),
    }
}

#[test]
fn n_joins_give_n_players_with_the_joined_ids() {
    let mut hub = InnerAppState::new();
    let host = CreateRoomRequest {
        player_id: 42,
        player_name: "host".to_string(),
        car_id: 0,
        weather_id: 0,
        background_id: 0,
    };
    assert_eq!(create_room(&mut hub, &host), Ok(42));
    let ids = [42, 7, 8, 100, -3, 0];
    for (n, id) in ids.iter().enumerate() {
        let (_, snapshot) = handle_websocket(&mut hub, &request(*id, 42, n as i32)).unwrap();
        assert_eq!(snapshot.players.len(), n + 1);
    }
    let room = hub.get(42).unwrap();
    let got: Vec<i32> = room.players.iter().map(|p| p.player_id).collect();
    assert_eq!(got, ids.to_vec());
    let mut sorted = got.clone();
    sorted.sort();
    sorted.dedup();
    assert_eq!(sorted.len(), ids.len());
}

#[test]
fn car_changes_then_host_disconnect() {
    let mut hub = InnerAppState::new();
    let host = CreateRoomRequest {
        player_id: 42,
        player_name: "host".to_string(),
        car_id: 2,
        weather_id: 0,
        background_id: 0,
    };
    assert_eq!(create_room(&mut hub, &host), Ok(42));
    let (mut host_session, _) = handle_websocket(&mut hub, &request(42, 42, 2)).unwrap();
    let (_guest_session, _) = handle_websocket(&mut hub, &request(7, 42, 1)).unwrap();
    let mut guest_rx = hub.subscribe(42).unwrap();

    // The host steps out of car 2, so that the car exists and is empty.
    assert_eq!(change_car(&mut hub, &ChangeCarRequest { room_id: 42, player_id: 42, car_id: 9 }), Ok(()));
    assert_eq!(change_car(&mut hub, &ChangeCarRequest { room_id: 42, player_id: 7, car_id: 1 }), Ok(()));
    let room = hub.get(42).unwrap();
    assert_eq!(occupants(&room, 1), vec![7]);
    assert_eq!(occupants(&room, 2), Vec::<i32>::new());
    assert_eq!(change_car(&mut hub, &ChangeCarRequest { room_id: 42, player_id: 7, car_id: 2 }), Ok(()));
    let room = hub.get(42).unwrap();
    assert_eq!(occupants(&room, 1), Vec::<i32>::new());
    assert_eq!(occupants(&room, 2), vec![7]);

    // The guest's forwarder has the three snapshots queued and forwards them.
    for _ in 0..3 {
        let step = handle_broadcast_to_ws(&hub, 7, &received(&mut guest_rx));
        assert!(matches!(step.frames.as_slice(), [Outbound::Text(_)]));
        assert!(!step.done);
    }

    // The host's connection dies: its duties end, and it is reconciled.
    assert_eq!(handle_ws_to_broadcast(&mut hub, 42, 42, 0, &Inbound::Ended), ReaderStep::Stop);
    assert!(!host_session.duty_finished(Duty::Reader));
    assert!(!host_session.duty_finished(Duty::Forwarder));
    assert!(host_session.duty_finished(Duty::Heartbeat));
    assert!(host_session.reconcile(&mut hub));
    assert!(!hub.contains(42));
    assert!(!hub.has_channel(42));
    assert_eq!(hub.get(42), Err(minigame::HubError::NotFound));

    // The guest's forwarder gets a forced closure, and no further snapshot.
    let step = handle_broadcast_to_ws(&hub, 7, &received(&mut guest_rx));
    assert_eq!(
        step,
        ForwardStep { frames: vec![Outbound::Close(CloseReason::Forced)], done: true }
    );
    assert!(hub.closure_expected(7));
}

#[test]
fn quit_by_request_is_seen_by_the_quitting_forwarder() {
    let mut hub = InnerAppState::new();
    assert_eq!(hub.create(Room::new(42, 0, 0)), Ok(()));
    let _ = handle_websocket(&mut hub, &request(42, 42, 2)).unwrap();
    let _ = handle_websocket(&mut hub, &request(7, 42, 1)).unwrap();
    let mut guest_rx = hub.subscribe(42).unwrap();
    let mut host_rx = hub.subscribe(42).unwrap();
    assert_eq!(quit_room(&mut hub, &QuitRoomRequest { room_id: 42, player_id: 7 }), Ok(()));

    let step = handle_broadcast_to_ws(&hub, 42, &received(&mut host_rx));
    assert_eq!(step, ForwardStep { frames: vec![], done: false });

    let step = handle_broadcast_to_ws(&hub, 7, &received(&mut guest_rx));
    let snapshot = minigame::wire::encode_sync(&hub.get(42).unwrap());
    assert_eq!(
        step,
        ForwardStep {
            frames: vec![Outbound::Text(snapshot.clone()), Outbound::Close(CloseReason::UserQuit)],
            done: true,
        }
    );

    // The snapshot that the quitting connection gets no longer lists the player.
    let room = minigame::wire::decode_sync(&snapshot).unwrap();
    let ids: Vec<i32> = room.players.iter().map(|p| p.player_id).collect();
    assert_eq!(ids, vec![42]);
    assert!(matches!(host_rx.try_recv(), Err(TryRecvError::Empty)));
}
