use minigame::wire::{
    chat_event, chat_frame, decode_sync, encode_event, encode_welcome, parse_chat, read_room,
    ChatFrame,
};
use minigame::{Car, MessageResponse, MessageType, Player, Room};

fn sample_room() -> Room {
    Room {
        room_id: 42,
        players: vec![
            Player {
                player_id: 42,
                player_name: "host \"H\"".to_string(),
                car_id: 2,
                weather_id: -1,
                background_id: 0,
            },
            Player {
                player_id: 7,
                player_name: "七\n".to_string(),
                car_id: 1,
                weather_id: i32::MAX,
                background_id: i32::MIN,
            },
        ],
        cars: vec![
            Car { car_id: 2, skin_id: 5, player_ids: vec![42, 7] },
            Car { car_id: 1, skin_id: 6, player_ids: vec![] },
        ],
        weather_id: 3,
        background_id: 4,
    }
}

#[test]
fn parse_chat_reads_the_three_members() {
    let frame = parse_chat(r#"{"player_id": 7, "content": "hi", "mes_type": "text", "more": 1}"#);
    assert_eq!(
        frame,
        Some(ChatFrame { player_id: 7, content: "hi".to_string(), mes_type: "text".to_string() })
    );
}

#[test]
fn parse_chat_keeps_unknown_kinds_and_ids_at_the_bounds() {
    let frame = parse_chat(r#"{"player_id": -2147483648, "content": "", "mes_type": "video"}"#);
    assert_eq!(
        frame,
        Some(ChatFrame { player_id: i32::MIN, content: String::new(), mes_type: "video".to_string() })
    );
    let frame = parse_chat(r#"{"player_id": 2147483647, "content": "x", "mes_type": "text"}"#);
    assert_eq!(
        frame,
        Some(ChatFrame { player_id: i32::MAX, content: "x".to_string(), mes_type: "text".to_string() })
    );
}

#[test]
fn parse_chat_refuses_an_id_that_does_not_fit_32_bits() {
    for id in ["2147483648", "-2147483649", "4294967303", "-9000000000", "9223372036854775807"] {
        let text = format!(r#"{{"player_id": {}, "content": "hi", "mes_type": "text"}}"#, id);
        assert_eq!(parse_chat(&text), None, "{}", id);
    }
}

#[test]
fn parse_chat_refuses_what_is_no_chat_frame() {
    assert_eq!(parse_chat("{"), None);
    assert_eq!(parse_chat("null"), None);
    assert_eq!(parse_chat(r#""text""#), None);
    assert_eq!(parse_chat(r#"{"player_id": null, "content": "hi", "mes_type": "text"}"#), None);
    assert_eq!(parse_chat(r#"{"player_id": 1, "content": ["hi"], "mes_type": "text"}"#), None);
    assert_eq!(parse_chat(r#"{"player_id": 1, "content": "hi", "mes_type": true}"#), None);
    assert_eq!(
        parse_chat(r#"{"player_id": 18446744073709551615, "content": "hi", "mes_type": "text"}"#),
        None
    );
}

#[test]
fn chat_frame_reads_a_parsed_document() {
    let doc: serde_json::Value =
        serde_json::from_str(r#"{"mes_type": "emoji", "player_id": 3, "content": "x"}"#).unwrap();
    assert_eq!(
        chat_frame(&doc),
        Some(ChatFrame { player_id: 3, content: "x".to_string(), mes_type: "emoji".to_string() })
    );
    let list: serde_json::Value = serde_json::from_str("[]").unwrap();
    assert_eq!(chat_frame(&list), None);
}

#[test]
fn chat_event_tells_text_from_emoji() {
    let frame = |kind: &str| ChatFrame {
        player_id: 7,
        content: "hi".to_string(),
        mes_type: kind.to_string(),
    };
    let said = MessageResponse { player_id: 7, content: "hi".to_string() };
    assert_eq!(chat_event(frame("text")), Some(MessageType::Text(said.clone())));
    assert_eq!(chat_event(frame("emoji")), Some(MessageType::Emoji(said)));
    assert_eq!(chat_event(frame("sync")), None);
    assert_eq!(chat_event(frame("")), None);
    assert_eq!(chat_event(frame("text ")), None);
}

#[test]
fn chat_event_carries_the_frames_id() {
    for player_id in [i32::MIN, -1, 0, 7, i32::MAX] {
        let frame = ChatFrame { player_id, content: "c".to_string(), mes_type: "emoji".to_string() };
        assert_eq!(
            chat_event(frame),
            Some(MessageType::Emoji(MessageResponse { player_id, content: "c".to_string() }))
        );
    }
}

#[test]
fn encode_event_has_no_frame_for_quit() {
    assert_eq!(encode_event(&MessageType::Quit(7, 42)), None);
}

#[test]
fn encode_event_tags_chat_lines() {
    let said = MessageResponse { player_id: -3, content: "a\\b".to_string() };
    assert_eq!(
        encode_event(&MessageType::Text(said.clone())),
        Some(r#"{"content":"a\\b","player_id":-3,"type":"text"}"#.to_string())
    );
    assert_eq!(
        encode_event(&MessageType::Emoji(said)),
        Some(r#"{"content":"a\\b","player_id":-3,"type":"emoji"}"#.to_string())
    );
}

#[test]
fn encode_event_of_empty_room() {
    let text = encode_event(&MessageType::Sync(Room::new(1, 2, 3))).unwrap();
    let mut expected = String::new();
    expected.push_str(r#"{"room_info":{"background_id":3,"cars":[],"players":[],"#);
    expected.push_str(r#""room_id":1,"weather_id":2},"type":"sync"}"#);
    assert_eq!(text, expected);
}

#[test]
fn encode_welcome_carries_the_snapshot_without_tag() {
    let text = encode_welcome(&Room::new(1, 2, 3));
    let mut expected = String::new();
    expected.push_str(r#"{"room_info":{"background_id":3,"cars":[],"players":[],"#);
    expected.push_str(r#""room_id":1,"weather_id":2}}"#);
    assert_eq!(text, expected);
    assert_eq!(decode_sync(&text), None);
}

#[test]
fn encoded_snapshot_is_the_json_of_its_fields() {
    let room = sample_room();
    let text = encode_event(&MessageType::Sync(room.clone())).unwrap();
    let doc: serde_json::Value = serde_json::from_str(&text).unwrap();
    assert_eq!(doc["type"].as_str(), Some("sync"));
    let info = &doc["room_info"];
    assert_eq!(info["room_id"].as_i64(), Some(42));
    assert_eq!(info["weather_id"].as_i64(), Some(3));
    assert_eq!(info["background_id"].as_i64(), Some(4));
    assert_eq!(info["players"].as_array().unwrap().len(), 2);
    assert_eq!(info["players"][0]["player_name"].as_str(), Some("host \"H\""));
    assert_eq!(info["players"][1]["player_name"].as_str(), Some("七\n"));
    assert_eq!(info["players"][1]["weather_id"].as_i64(), Some(2147483647));
    assert_eq!(info["players"][1]["background_id"].as_i64(), Some(-2147483648));
    assert_eq!(info["cars"][0]["player_ids"][1].as_i64(), Some(7));
    assert_eq!(info["cars"][1]["player_ids"].as_array().unwrap().len(), 0);
    assert_eq!(info["cars"][1]["skin_id"].as_i64(), Some(6));
}

#[test]
fn sync_snapshot_round_trips_in_all_fields() {
    let room = sample_room();
    let text = encode_event(&MessageType::Sync(room.clone())).unwrap();
    assert_eq!(decode_sync(&text), Some(room));
    let empty = Room::new(-5, 0, 9);
    let text = encode_event(&MessageType::Sync(empty.clone())).unwrap();
    assert_eq!(decode_sync(&text), Some(empty));
}

#[test]
fn read_room_reads_the_welcome_snapshot() {
    let room = sample_room();
    let doc: serde_json::Value = serde_json::from_str(&encode_welcome(&room)).unwrap();
    assert_eq!(read_room(&doc["room_info"]), Some(room));
    assert_eq!(read_room(&doc), None);
}

#[test]
fn decode_sync_refuses_what_is_no_snapshot() {
    assert_eq!(decode_sync("nonsense"), None);
    assert_eq!(decode_sync(r#"{"type":"text","player_id":1,"content":"x"}"#), None);
    assert_eq!(decode_sync(r#"{"type":"sync"}"#), None);
    assert_eq!(decode_sync(r#"{"type":"sync","room_info":[]}"#), None);
    let base = r#"{"background_id":3,"cars":[],"players":[],"room_id":1,"weather_id":2}"#;
    assert_eq!(decode_sync(&format!(r#"{{"type":"sync","room_info":{}}}"#, base)), Some(Room::new(1, 2, 3)));
    let wide = base.replace(r#""room_id":1"#, r#""room_id":2147483648"#);
    assert_eq!(decode_sync(&format!(r#"{{"type":"sync","room_info":{}}}"#, wide)), None);
    let no_list = base.replace(r#""cars":[]"#, r#""cars":{}"#);
    assert_eq!(decode_sync(&format!(r#"{{"type":"sync","room_info":{}}}"#, no_list)), None);
    let bad_item = base.replace(r#""players":[]"#, r#""players":[{"player_id":1}]"#);
    assert_eq!(decode_sync(&format!(r#"{{"type":"sync","room_info":{}}}"#, bad_item)), None);
    let bad_id = base.replace(
        r#""cars":[]"#,
        r#""cars":[{"car_id":1,"skin_id":2,"player_ids":[1,"2"]}]"#,
    );
    assert_eq!(decode_sync(&format!(r#"{{"type":"sync","room_info":{}}}"#, bad_id)), None);
}
