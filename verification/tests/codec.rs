use oxidized_alpaca::streaming::codec::{
    decode_batch, decode_frame, decode_message, encode_request, request_value, DecodeError,
};
use oxidized_alpaca::streaming::stock_data::{
    Bar, ControlMessage, Error as FeedError, Quote, Request, StreamMessage, Timestamp, Trade,
};
use oxidized_alpaca::streaming::SubscriptionList;

#[test]
fn subscribe_request_round_trips_through_acknowledgement() {
    let payload = SubscriptionList::new()
        .add_trades("BTC/USD")
        .add_quotes("BTC/USD");
    let sent = encode_request(&Request::Subscribe(payload.clone()));
    assert_eq!(
        sent,
        r#"{"action":"subscribe","quotes":["BTC/USD"],"trades":["BTC/USD"]}"#
    );
    // The server answers with the complete resulting state.
    let answer = r#"[{"T":"subscription","trades":["BTC/USD"],"quotes":["BTC/USD"]}]"#;
    let decoded = decode_frame(answer).unwrap();
    assert_eq!(decoded, vec![StreamMessage::Subscription(payload)]);
}

#[test]
fn auth_request_is_encoded_with_key_and_secret() {
    let request = Request::AuthMessage {
        key: "PK\"1".to_string(),
        secret: "s3cr3t".to_string(),
    };
    assert_eq!(
        encode_request(&request),
        r#"{"action":"auth","key":"PK\"1","secret":"s3cr3t"}"#
    );
    let value = request_value(&request);
    assert_eq!(value["action"], "auth");
    assert_eq!(value["key"], "PK\"1");
    assert_eq!(value["secret"], "s3cr3t");
}

#[test]
fn unsubscribe_request_omits_empty_channels() {
    let list = SubscriptionList {
        bars: Some(vec!["AAPL".to_string(), "MSFT".to_string()]),
        daily_bars: Some(vec![]),
        updated_bars: None,
        quotes: None,
        trades: None,
        news: Some(vec!["*".to_string()]),
    };
    assert!(
        encode_request(&Request::Unsubscribe(list))
            == r#"{"action":"unsubscribe","bars":["AAPL","MSFT"],"news":["*"]}"#
    );
    assert!(
        encode_request(&Request::Subscribe(SubscriptionList::new()))
            == r#"{"action":"subscribe"}"#
    );
}

#[test]
fn request_names_every_channel_by_its_wire_name() {
    let list = SubscriptionList::new()
        .add_minute_bars("A")
        .add_daily_bars("B")
        .add_updated_bars("C")
        .add_quotes("D")
        .add_trades("E")
        .add_news("F");
    assert!(
        encode_request(&Request::Subscribe(list))
            == r#"{"action":"subscribe","bars":["A"],"dailyBars":["B"],"news":["F"],"quotes":["D"],"trades":["E"],"updatedBars":["C"]}"#
    );
}

#[test]
fn decodes_handshake_acknowledgements() {
    assert_eq!(
        decode_frame(r#"[{"T":"success","msg":"connected"}]"#),
        Ok(vec![StreamMessage::Control {
            msg: ControlMessage::Connected
        }])
    );
    assert_eq!(
        decode_frame(r#"[{"T":"success","msg":"authenticated"}]"#),
        Ok(vec![StreamMessage::Control {
            msg: ControlMessage::Authenticated
        }])
    );
    assert_eq!(
        decode_frame(r#"[{"T":"success","msg":"welcome"}]"#),
        Err(DecodeError::Malformed { index: 0 })
    );
}

#[test]
fn decodes_every_error_code() {
    let cases = [
        (400, FeedError::InvalidSyntax),
        (401, FeedError::NotAuthenticated),
        (402, FeedError::AuthFailed),
        (403, FeedError::AlreadyAuthorized),
    ];
    for (code, error) in cases {
        let text = format!(r#"[{{"T":"error","code":{},"msg":"x"}}]"#, code);
        assert_eq!(decode_frame(&text), Ok(vec![StreamMessage::Error(error)]));
        assert_eq!(error.code(), code);
        assert_eq!(FeedError::from_code(code), Some(error));
    }
    assert_eq!(FeedError::from_code(404), None);
    assert_eq!(
        decode_frame(r#"[{"T":"error","code":404}]"#),
        Err(DecodeError::Malformed { index: 0 })
    );
    assert_eq!(
        decode_frame(r#"[{"T":"error","code":400.5}]"#),
        Err(DecodeError::Malformed { index: 0 })
    );
}

#[test]
fn decodes_a_trade() {
    let text = r#"[{"T":"t","i":96921,"S":"AAPL","x":"D","p":126.55,"s":1,"t":"2021-02-22T15:51:44.208Z","c":["@","I"],"z":"C"}]"#;
    assert_eq!(
        decode_frame(text),
        Ok(vec![StreamMessage::Trade(Trade {
            symbol: "AAPL".to_string(),
            trade_id: 96921,
            exchange: Some("D".to_string()),
            price: "126.55".to_string(),
            size: "1".to_string(),
            timestamp: Timestamp {
                seconds: 1_614_009_104,
                nanos: 208_000_000
            },
            conditions: Some(vec!["@".to_string(), "I".to_string()]),
            tape: Some("C".to_string()),
        })])
    );
    let price: f64 = "126.55".parse().unwrap();
    assert_eq!(price, 126.55);
}

#[test]
fn decodes_a_quote_with_absent_members() {
    let text = r#"[{"T":"q","S":"AMD","bx":"U","bp":87.66,"bs":1,"ax":null,"ap":87.68,"as":4,"t":"2021-02-22T15:51:45.335689322Z","c":["R"]}]"#;
    assert_eq!(
        decode_frame(text),
        Ok(vec![StreamMessage::Quote(Quote {
            symbol: "AMD".to_string(),
            ask_exchange: None,
            ask_price: "87.68".to_string(),
            ask_size: "4".to_string(),
            bid_exchange: Some("U".to_string()),
            bid_price: "87.66".to_string(),
            bid_size: "1".to_string(),
            trade_size: None,
            timestamp: Timestamp {
                seconds: 1_614_009_105,
                nanos: 335_689_322
            },
            tape: None,
        })])
    );
}

#[test]
fn decodes_the_three_kinds_of_bar() {
    let bar = Bar {
        symbol: "SPY".to_string(),
        open: "388.985".to_string(),
        high: "389.13".to_string(),
        low: "388.975".to_string(),
        close: "389.12".to_string(),
        volume: 49378,
        timestamp: Timestamp {
            seconds: 1_614_009_060,
            nanos: 0,
        },
    };
    let body = r#""S":"SPY","o":388.985,"h":389.13,"l":388.975,"c":389.12,"v":49378,"t":"2021-02-22T15:51:00+00:00""#;
    let text = format!(
        r#"[{{"T":"b",{b}}},{{"T":"d",{b}}},{{"T":"u",{b}}}]"#,
        b = body
    );
    assert_eq!(
        decode_frame(&text),
        Ok(vec![
            StreamMessage::Bar(bar.clone()),
            StreamMessage::DailyBar(bar.clone()),
            StreamMessage::UpdatedBar(bar),
        ])
    );
}

#[test]
fn refuses_what_is_no_batch() {
    assert_eq!(decode_frame("not json"), Err(DecodeError::InvalidJson));
    assert_eq!(decode_frame(""), Err(DecodeError::InvalidJson));
    assert_eq!(
        decode_frame(r#"{"T":"success","msg":"connected"}"#),
        Err(DecodeError::NotABatch)
    );
    assert_eq!(decode_frame("[]"), Ok(vec![]));
}

#[test]
fn names_the_first_malformed_element() {
    let text = r#"[{"T":"success","msg":"connected"},{"T":"x"},{"T":"y"}]"#;
    assert_eq!(decode_frame(text), Err(DecodeError::Malformed { index: 1 }));
    // A required member is missing.
    let text = r#"[{"T":"t","S":"AAPL"}]"#;
    assert_eq!(decode_frame(text), Err(DecodeError::Malformed { index: 0 }));
    // The time is no date and time.
    let text = r#"[{"T":"b","S":"SPY","o":1,"h":1,"l":1,"c":1,"v":1,"t":"yesterday"}]"#;
    assert_eq!(decode_frame(text), Err(DecodeError::Malformed { index: 0 }));
    // A symbol list holds something that is no string.
    let text = r#"[{"T":"subscription","trades":["A",1]}]"#;
    assert_eq!(decode_frame(text), Err(DecodeError::Malformed { index: 0 }));
}

#[test]
fn decodes_from_parsed_values() {
    let value: serde_json::Value =
        serde_json::from_str(r#"[{"T":"subscription","trades":["X"],"bars":null,"extra":1}]"#)
            .unwrap();
    assert_eq!(
        decode_batch(&value),
        Ok(vec![StreamMessage::Subscription(
            SubscriptionList::new().add_trades("X")
        )])
    );
    assert_eq!(
        decode_message(&value[0]),
        Some(StreamMessage::Subscription(
            SubscriptionList::new().add_trades("X")
        ))
    );
    assert_eq!(decode_message(&value), None);
    assert_eq!(decode_batch(&value[0]), Err(DecodeError::NotABatch));
}

#[test]
fn timestamp_parses_rfc3339() {
    assert_eq!(
        Timestamp::parse("1970-01-01T00:00:01.5Z"),
        Some(Timestamp {
            seconds: 1,
            nanos: 500_000_000
        })
    );
    assert_eq!(
        Timestamp::parse("2021-02-22T16:51:44+01:00"),
        Some(Timestamp {
            seconds: 1_614_009_104,
            nanos: 0
        })
    );
    assert_eq!(Timestamp::parse("2021-02-22"), None);
}
