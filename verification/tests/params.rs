use minigame::decimal::parse_i32;
use minigame::handlers::websocket::number_param;
use minigame::{websocket_handler, BadParameter, ConnectParams, ConnectRequest, ParamFault, ParamName};

fn full() -> ConnectParams {
    ConnectParams {
        player_id: Some("7".to_string()),
        room_id: Some("42".to_string()),
        player_name: Some("seven".to_string()),
        car_id: Some("1".to_string()),
        weather_id: Some("2".to_string()),
        background_id: Some("3".to_string()),
        skin_id: Some("4".to_string()),
    }
}

fn bad(name: ParamName, fault: ParamFault) -> Result<ConnectRequest, BadParameter> {
    Err(BadParameter { name, fault })
}

#[test]
fn parse_i32_reads_decimal_numbers() {
    assert_eq!(parse_i32("0"), Some(0));
    assert_eq!(parse_i32("7"), Some(7));
    assert_eq!(parse_i32("42"), Some(42));
    assert_eq!(parse_i32("+42"), Some(42));
    assert_eq!(parse_i32("-42"), Some(-42));
    assert_eq!(parse_i32("-0"), Some(0));
    assert_eq!(parse_i32("007"), Some(7));
    assert_eq!(parse_i32("0000000000000000000012"), Some(12));
}

#[test]
fn parse_i32_reads_the_bounds_and_refuses_beyond() {
    assert_eq!(parse_i32("2147483647"), Some(i32::MAX));
    assert_eq!(parse_i32("+2147483647"), Some(i32::MAX));
    assert_eq!(parse_i32("-2147483648"), Some(i32::MIN));
    assert_eq!(parse_i32("2147483648"), None);
    assert_eq!(parse_i32("-2147483649"), None);
    assert_eq!(parse_i32("99999999999999999999999999"), None);
    assert_eq!(parse_i32("-99999999999999999999999999"), None);
}

#[test]
fn parse_i32_refuses_what_is_no_number() {
    for text in ["", "+", "-", " 1", "1 ", "1_000", "0x10", "1.0", "--1", "+-1", "1-", "a", "１２", "٣", "1e3"] {
        assert_eq!(parse_i32(text), None, "{:?}", text);
    }
}

#[test]
fn parse_i32_agrees_with_std_on_samples() {
    let samples = [
        "12", "-12", "+12", "2147483647", "2147483648", "-2147483648", "-2147483649", "", "-", "+",
        "00", "-00", "12a", "a12", "1 2", "٣", "+0", "4294967296", "000002147483647",
    ];
    for text in samples {
        assert_eq!(parse_i32(text), text.parse::<i32>().ok(), "{:?}", text);
    }
}

#[test]
fn number_param_names_the_fault() {
    assert_eq!(number_param(&Some("12".to_string()), ParamName::CarId), Ok(12));
    assert_eq!(
        number_param(&None, ParamName::CarId),
        Err(BadParameter { name: ParamName::CarId, fault: ParamFault::Missing })
    );
    assert_eq!(
        number_param(&Some("x".to_string()), ParamName::SkinId),
        Err(BadParameter { name: ParamName::SkinId, fault: ParamFault::Malformed })
    );
}

#[test]
fn websocket_handler_accepts_complete_parameters() {
    assert_eq!(
        websocket_handler(&full()),
        Ok(ConnectRequest {
            player_id: 7,
            room_id: 42,
            player_name: "seven".to_string(),
            car_id: 1,
            weather_id: 2,
            background_id: 3,
            skin_id: 4,
        })
    );
}

#[test]
fn websocket_handler_accepts_any_name() {
    let params = ConnectParams { player_name: Some(String::new()), ..full() };
    assert_eq!(websocket_handler(&params).unwrap().player_name, "");
    let params = ConnectParams { player_name: Some("12 名前".to_string()), ..full() };
    assert_eq!(websocket_handler(&params).unwrap().player_name, "12 名前");
}

#[test]
fn websocket_handler_names_each_missing_parameter() {
    assert_eq!(
        websocket_handler(&ConnectParams { player_id: None, ..full() }),
        bad(ParamName::PlayerId, ParamFault::Missing)
    );
    assert_eq!(
        websocket_handler(&ConnectParams { room_id: None, ..full() }),
        bad(ParamName::RoomId, ParamFault::Missing)
    );
    assert_eq!(
        websocket_handler(&ConnectParams { player_name: None, ..full() }),
        bad(ParamName::PlayerName, ParamFault::Missing)
    );
    assert_eq!(
        websocket_handler(&ConnectParams { car_id: None, ..full() }),
        bad(ParamName::CarId, ParamFault::Missing)
    );
    assert_eq!(
        websocket_handler(&ConnectParams { weather_id: None, ..full() }),
        bad(ParamName::WeatherId, ParamFault::Missing)
    );
    assert_eq!(
        websocket_handler(&ConnectParams { background_id: None, ..full() }),
        bad(ParamName::BackgroundId, ParamFault::Missing)
    );
    assert_eq!(
        websocket_handler(&ConnectParams { skin_id: None, ..full() }),
        bad(ParamName::SkinId, ParamFault::Missing)
    );
}

#[test]
fn websocket_handler_names_each_malformed_parameter() {
    let junk = || Some("1x".to_string());
    assert_eq!(
        websocket_handler(&ConnectParams { player_id: junk(), ..full() }),
        bad(ParamName::PlayerId, ParamFault::Malformed)
    );
    assert_eq!(
        websocket_handler(&ConnectParams { room_id: junk(), ..full() }),
        bad(ParamName::RoomId, ParamFault::Malformed)
    );
    assert_eq!(
        websocket_handler(&ConnectParams { car_id: junk(), ..full() }),
        bad(ParamName::CarId, ParamFault::Malformed)
    );
    assert_eq!(
        websocket_handler(&ConnectParams { weather_id: junk(), ..full() }),
        bad(ParamName::WeatherId, ParamFault::Malformed)
    );
    assert_eq!(
        websocket_handler(&ConnectParams { background_id: junk(), ..full() }),
        bad(ParamName::BackgroundId, ParamFault::Malformed)
    );
    assert_eq!(
        websocket_handler(&ConnectParams { skin_id: junk(), ..full() }),
        bad(ParamName::SkinId, ParamFault::Malformed)
    );
}

#[test]
fn websocket_handler_reports_the_first_fault_in_order() {
    let params = ConnectParams {
        player_id: Some("x".to_string()),
        room_id: None,
        player_name: None,
        car_id: None,
        weather_id: None,
        background_id: None,
        skin_id: None,
    };
    assert_eq!(websocket_handler(&params), bad(ParamName::PlayerId, ParamFault::Malformed));
    let params = ConnectParams { player_id: Some("1".to_string()), ..params };
    assert_eq!(websocket_handler(&params), bad(ParamName::RoomId, ParamFault::Missing));
    let params = ConnectParams {
        weather_id: Some("2147483648".to_string()),
        skin_id: Some("-".to_string()),
        ..full()
    };
    assert_eq!(websocket_handler(&params), bad(ParamName::WeatherId, ParamFault::Malformed));
}

#[test]
fn parse_i32_agrees_with_std_on_every_short_text() {
    let alphabet = ['+', '-', '0', '1', '5', '9', 'a', ' ', '_', '.'];
    let mut texts = vec![String::new()];
    for _ in 0..4 {
        let mut longer = Vec::new();
        for text in &texts {
            for c in alphabet {
                let mut next = text.clone();
                next.push(c);
                longer.push(next);
            }
        }
        for text in &texts {
            assert_eq!(parse_i32(text), text.parse::<i32>().ok(), "{:?}", text);
        }
        texts = longer;
    }
    for text in &texts {
        assert_eq!(parse_i32(text), text.parse::<i32>().ok(), "{:?}", text);
    }
}

#[test]
fn parse_i32_reads_back_what_formatting_writes_near_the_bounds() {
    for offset in 0..2000i64 {
        for base in [i32::MIN as i64 - 1000, -1000, i32::MAX as i64 - 1000] {
            let n = base + offset;
            let text = n.to_string();
            let expected = if n >= i32::MIN as i64 && n <= i32::MAX as i64 {
                Some(n as i32)
            } else {
                None
            };
            assert_eq!(parse_i32(&text), expected, "{:?}", text);
        }
    }
}

#[test]
fn parameters_are_given_under_their_names() {
    assert_eq!(ParamName::PlayerId.key(), "player_id");
    assert_eq!(ParamName::RoomId.key(), "room_id");
    assert_eq!(ParamName::PlayerName.key(), "player_name");
    assert_eq!(ParamName::CarId.key(), "car_id");
    assert_eq!(ParamName::WeatherId.key(), "weather_id");
    assert_eq!(ParamName::BackgroundId.key(), "background_id");
    assert_eq!(ParamName::SkinId.key(), "skin_id");
}

#[test]
fn refusal_names_the_fault_and_the_parameter() {
    let missing = BadParameter { name: ParamName::RoomId, fault: ParamFault::Missing };
    assert_eq!(missing.message(), "缺少room_id参数");
    let malformed = BadParameter { name: ParamName::SkinId, fault: ParamFault::Malformed };
    assert_eq!(malformed.message(), "skin_id参数格式错误");
    let missing = BadParameter { name: ParamName::PlayerId, fault: ParamFault::Missing };
    assert_eq!(missing.message(), "缺少player_id参数");
}

#[test]
fn malformed_car_id_is_refused_with_its_own_text() {
    let params = ConnectParams {
        player_id: Some("7".to_string()),
        room_id: Some("42".to_string()),
        player_name: Some("bob".to_string()),
        car_id: Some("x".to_string()),
        weather_id: Some("5".to_string()),
        background_id: Some("6".to_string()),
        skin_id: Some("9".to_string()),
    };
    let refused = websocket_handler(&params).unwrap_err();
    assert_eq!(refused, BadParameter { name: ParamName::CarId, fault: ParamFault::Malformed });
    assert_eq!(refused.message(), "car_id参数格式错误");
}

#[test]
fn every_refusal_has_the_text_of_its_parameter() {
    let names = [
        ParamName::PlayerId,
        ParamName::RoomId,
        ParamName::PlayerName,
        ParamName::CarId,
        ParamName::WeatherId,
        ParamName::BackgroundId,
        ParamName::SkinId,
    ];
    for name in names {
        let missing = BadParameter { name, fault: ParamFault::Missing };
        assert_eq!(missing.message(), format!("缺少{}参数", name.key()));
        let malformed = BadParameter { name, fault: ParamFault::Malformed };
        assert_eq!(malformed.message(), format!("{}参数格式错误", name.key()));
    }
}
