use oxidized_alpaca::streaming::stock_data::{
    ControlMessage, Error as FeedError, Request, StreamMessage, Timestamp, Trade,
};
use oxidized_alpaca::streaming::streaming_client::{route, Handshake, Routed};
use oxidized_alpaca::streaming::{ClientState, StreamingMarketDataClient, SubscriptionList};
use oxidized_alpaca::{AccountType, Env, Error};

fn env() -> Env {
    Env::new(
        &AccountType::Paper,
        Some("key".to_string()),
        Some("secret".to_string()),
    )
    .unwrap()
}

fn connected() -> StreamMessage {
    StreamMessage::Control {
        msg: ControlMessage::Connected,
    }
}

fn authenticated() -> StreamMessage {
    StreamMessage::Control {
        msg: ControlMessage::Authenticated,
    }
}

fn trade(symbol: &str, id: i64) -> StreamMessage {
    StreamMessage::Trade(Trade {
        symbol: symbol.to_string(),
        trade_id: id,
        exchange: Some("V".to_string()),
        price: "126.55".to_string(),
        size: "1".to_string(),
        timestamp: Timestamp {
            seconds: 1_614_009_104,
            nanos: 208_000_000,
        },
        conditions: Some(vec!["@".to_string(), "I".to_string()]),
        tape: Some("C".to_string()),
    })
}

fn authenticated_client() -> StreamingMarketDataClient {
    let mut client = StreamingMarketDataClient::new_test_client(AccountType::Paper, env());
    client.receive(vec![connected()]).unwrap();
    assert!(matches!(client.handshake(), Handshake::Send(_)));
    client.receive(vec![authenticated()]).unwrap();
    assert!(client.handshake() == Handshake::Done);
    client
}

#[test]
fn handshake_sends_credentials_after_connected() {
    let mut client = StreamingMarketDataClient::new_test_client(AccountType::Paper, env());
    assert_eq!(client.url(), "wss://stream.data.alpaca.markets/v2/test");
    assert_eq!(*client.state(), ClientState::Connecting);
    assert!(client.handshake() == Handshake::Receive);

    client.receive(vec![connected()]).unwrap();
    assert!(client.handshake() == Handshake::Send(Request::AuthMessage {
            key: "key".to_string(),
            secret: "secret".to_string(),
        }));
    assert_eq!(*client.state(), ClientState::Connected);
    assert_eq!(client.subscriptions(), None);
    assert!(client.handshake() == Handshake::Receive);

    client.receive(vec![authenticated()]).unwrap();
    assert!(client.handshake() == Handshake::Done);
    assert_eq!(
        *client.state(),
        ClientState::Authenticated(SubscriptionList::new())
    );
    assert_eq!(client.subscriptions(), Some(&SubscriptionList::new()));
    // No data has arrived: the caller is told to wait.
    assert_eq!(client.next_message(), Ok(None));
}

#[test]
fn update_is_absorbed_and_trade_returned() {
    let mut client = authenticated_client();
    let update = SubscriptionList::new().add_trades("X");
    client
        .receive(vec![
            StreamMessage::Subscription(update.clone()),
            trade("X", 1),
        ])
        .unwrap();
    assert_eq!(client.next_message(), Ok(Some(trade("X", 1))));
    assert_eq!(client.subscriptions(), Some(&update));
    assert_eq!(client.next_message(), Ok(None));
}

#[test]
fn auth_failure_fails_construction() {
    let mut client = StreamingMarketDataClient::new_test_client(AccountType::Paper, env());
    client.receive(vec![connected()]).unwrap();
    assert!(matches!(client.handshake(), Handshake::Send(_)));
    client
        .receive(vec![StreamMessage::Error(FeedError::AuthFailed)])
        .unwrap();
    assert!(client.handshake() == Handshake::Failed(Error::StreamingAuth {
            response: StreamMessage::Error(FeedError::AuthFailed)
        }));
    assert!(client.is_closed());
    assert_eq!(client.subscriptions(), None);
    assert_eq!(client.next_message(), Err(Error::Closed));
    assert!(client.handshake() == Handshake::Failed(Error::Closed));
}

fn quote_message(symbol: &str) -> StreamMessage {
    StreamMessage::Quote(oxidized_alpaca::streaming::stock_data::Quote {
        symbol: symbol.to_string(),
        ask_exchange: None,
        ask_price: "1.5".to_string(),
        ask_size: "2".to_string(),
        bid_exchange: None,
        bid_price: "1.4".to_string(),
        bid_size: "3".to_string(),
        trade_size: None,
        timestamp: Timestamp {
            seconds: 0,
            nanos: 0,
        },
        tape: None,
    })
}

#[test]
fn first_message_must_be_connected() {
    let mut client = StreamingMarketDataClient::new_iex_client(AccountType::Live, env());
    assert_eq!(client.url(), "wss://stream.data.alpaca.markets/v2/iex");
    client.receive(vec![authenticated(), connected()]).unwrap();
    assert!(
        client.handshake()
            == Handshake::Failed(Error::UnexpectedConnectionMessage(authenticated()))
    );
    assert!(client.is_closed());
    assert_eq!(*client.state(), ClientState::Connecting);
    // Nothing more is taken in, and no credentials are ever asked for.
    assert_eq!(client.receive(vec![connected()]), Err(Error::Closed));
    assert!(client.handshake() == Handshake::Failed(Error::Closed));
}

#[test]
fn handshake_in_one_batch() {
    let mut client = StreamingMarketDataClient::new_sip_client(AccountType::Paper, env());
    assert_eq!(
        client.url(),
        "wss://stream.data.sandbox.alpaca.markets/v2/sip"
    );
    client
        .receive(vec![connected(), authenticated(), trade("A", 1)])
        .unwrap();
    assert!(matches!(client.handshake(), Handshake::Send(_)));
    assert!(client.handshake() == Handshake::Done);
    assert!(client.handshake() == Handshake::Done);
    assert_eq!(client.next_message(), Ok(Some(trade("A", 1))));
}

#[test]
fn nothing_is_served_before_the_handshake() {
    let mut client = StreamingMarketDataClient::new_test_client(AccountType::Paper, env());
    client.receive(vec![connected()]).unwrap();
    assert_eq!(client.next_message(), Err(Error::HandshakeIncomplete));
    assert_eq!(
        client.await_subscription_update_message(),
        Err(Error::HandshakeIncomplete)
    );
    assert!(client.add_subscriptions(&SubscriptionList::new()) == Err(Error::HandshakeIncomplete));
    assert!(
        client.remove_subscriptions(&SubscriptionList::new())
            == Err(Error::HandshakeIncomplete)
    );
    // The queue is untouched: the handshake still finds its message.
    assert!(matches!(client.handshake(), Handshake::Send(_)));
}

#[test]
fn data_is_yielded_once_and_in_wire_order() {
    let mut client = authenticated_client();
    let first = SubscriptionList::new().add_trades("A");
    let second = SubscriptionList::new().add_quotes("B");
    client
        .receive(vec![
            trade("A", 1),
            StreamMessage::Subscription(first),
            trade("A", 2),
            StreamMessage::Error(FeedError::InvalidSyntax),
        ])
        .unwrap();
    client
        .receive(vec![
            StreamMessage::Subscription(second.clone()),
            quote_message("B"),
        ])
        .unwrap();
    client.receive(vec![]).unwrap();
    assert_eq!(client.next_message(), Ok(Some(trade("A", 1))));
    assert_eq!(client.subscriptions(), Some(&SubscriptionList::new()));
    assert_eq!(client.next_message(), Ok(Some(trade("A", 2))));
    // A failure of the feed is data for the caller; the session goes on.
    assert_eq!(
        client.next_message(),
        Ok(Some(StreamMessage::Error(FeedError::InvalidSyntax)))
    );
    assert_eq!(client.next_message(), Ok(Some(quote_message("B"))));
    assert_eq!(client.next_message(), Ok(None));
    assert_eq!(client.next_message(), Ok(None));
    assert_eq!(client.subscriptions(), Some(&second));
}

#[test]
fn update_replaces_and_does_not_merge() {
    let mut client = authenticated_client();
    let first = SubscriptionList::new().add_trades("A").add_quotes("A");
    let second = SubscriptionList::new().add_trades("B");
    client
        .receive(vec![StreamMessage::Subscription(first.clone())])
        .unwrap();
    assert_eq!(client.next_message(), Ok(None));
    assert_eq!(client.subscriptions(), Some(&first));
    client
        .receive(vec![StreamMessage::Subscription(second.clone())])
        .unwrap();
    assert_eq!(client.next_message(), Ok(None));
    assert_eq!(client.subscriptions(), Some(&second));
    assert_eq!(client.subscriptions().unwrap().quotes, None);
}

#[test]
fn control_message_after_handshake_is_a_violation() {
    let mut client = authenticated_client();
    client
        .receive(vec![connected(), trade("A", 1), authenticated()])
        .unwrap();
    assert_eq!(
        client.next_message(),
        Err(Error::UnexpectedMessage(connected()))
    );
    // The session stays usable and nothing is lost.
    assert!(!client.is_closed());
    assert_eq!(client.next_message(), Ok(Some(trade("A", 1))));
    assert_eq!(
        client.await_subscription_update_message(),
        Err(Error::UnexpectedMessage(authenticated()))
    );
    assert_eq!(client.next_message(), Ok(None));
}

#[test]
fn subscription_change_waits_for_the_acknowledgement() {
    let mut client = authenticated_client();
    let wanted = SubscriptionList::new()
        .add_minute_bars("FAKEPACA")
        .add_quotes("FAKEPACA");
    assert!(client.add_subscriptions(&wanted) == Ok(Request::Subscribe(wanted.clone())));
    // Asking changes nothing by itself.
    assert_eq!(client.subscriptions(), Some(&SubscriptionList::new()));
    assert_eq!(client.await_subscription_update_message(), Ok(false));

    client
        .receive(vec![trade("FAKEPACA", 1), trade("FAKEPACA", 2)])
        .unwrap();
    assert_eq!(client.await_subscription_update_message(), Ok(false));
    let confirmed = SubscriptionList::new().add_quotes("FAKEPACA");
    client
        .receive(vec![
            trade("FAKEPACA", 3),
            StreamMessage::Subscription(confirmed.clone()),
            trade("FAKEPACA", 4),
        ])
        .unwrap();
    assert_eq!(client.await_subscription_update_message(), Ok(true));
    // What the server confirmed counts, not what was asked for.
    assert_eq!(client.subscriptions(), Some(&confirmed));
    // The data that came while waiting is served in the order of arrival.
    assert_eq!(client.next_message(), Ok(Some(trade("FAKEPACA", 1))));
    assert_eq!(client.next_message(), Ok(Some(trade("FAKEPACA", 2))));
    assert_eq!(client.next_message(), Ok(Some(trade("FAKEPACA", 3))));
    assert_eq!(client.next_message(), Ok(Some(trade("FAKEPACA", 4))));
    assert_eq!(client.next_message(), Ok(None));

    assert!(client.remove_subscriptions(&confirmed) == Ok(Request::Unsubscribe(confirmed.clone())));
    client
        .receive(vec![StreamMessage::Subscription(SubscriptionList::new())])
        .unwrap();
    assert_eq!(client.await_subscription_update_message(), Ok(true));
    assert_eq!(client.subscriptions(), Some(&SubscriptionList::new()));
}

#[test]
fn shutdown_is_idempotent() {
    let mut client = authenticated_client();
    client.receive(vec![trade("A", 1)]).unwrap();
    assert!(client.shut_down());
    assert!(client.is_closed());
    let subscriptions = client.subscriptions().cloned();
    // The second call tears nothing down and changes nothing.
    assert!(!client.shut_down());
    assert!(!client.shut_down());
    assert!(client.is_closed());
    assert_eq!(client.subscriptions().cloned(), subscriptions);
    assert_eq!(client.next_message(), Err(Error::Closed));
    assert_eq!(client.receive(vec![trade("A", 2)]), Err(Error::Closed));
    assert_eq!(client.receive_frame("[]"), Err(Error::Closed));
    assert_eq!(
        client.await_subscription_update_message(),
        Err(Error::Closed)
    );
    assert!(client.add_subscriptions(&SubscriptionList::new()) == Err(Error::Closed));
    assert!(client.remove_subscriptions(&SubscriptionList::new()) == Err(Error::Closed));
    assert!(client.handshake() == Handshake::Failed(Error::Closed));
}

#[test]
fn session_runs_on_frames_of_text() {
    let mut client = StreamingMarketDataClient::new_test_client(AccountType::Paper, env());
    client
        .receive_frame(r#"[{"T":"success","msg":"connected"}]"#)
        .unwrap();
    let request = match client.handshake() {
        Handshake::Send(request) => request,
        _ => panic!("the credentials are due"),
    };
    assert_eq!(
        oxidized_alpaca::streaming::codec::encode_request(&request),
        r#"{"action":"auth","key":"key","secret":"secret"}"#
    );
    client
        .receive_frame(r#"[{"T":"success","msg":"authenticated"}]"#)
        .unwrap();
    assert!(client.handshake() == Handshake::Done);
    client
        .receive_frame(
            r#"[{"T":"subscription","trades":["X"]},{"T":"t","i":7,"S":"X","x":"V","p":126.55,"s":1,"t":"2021-02-22T15:51:44.208Z","c":["@","I"],"z":"C"}]"#,
        )
        .unwrap();
    assert_eq!(client.next_message(), Ok(Some(trade("X", 7))));
    assert_eq!(
        client.subscriptions(),
        Some(&SubscriptionList::new().add_trades("X"))
    );
    // A frame that cannot be read is refused and leaves the session alone.
    assert_eq!(
        client.receive_frame("{"),
        Err(Error::Decode(
            oxidized_alpaca::streaming::codec::DecodeError::InvalidJson
        ))
    );
    assert_eq!(
        client.receive_frame(r#"[{"T":"t"}]"#),
        Err(Error::Decode(
            oxidized_alpaca::streaming::codec::DecodeError::Malformed { index: 0 }
        ))
    );
    assert_eq!(client.next_message(), Ok(None));
}

#[test]
fn router_classifies_each_kind_of_message() {
    let list = SubscriptionList::new().add_news("*");
    assert_eq!(
        route(StreamMessage::Subscription(list.clone())),
        Routed::Update(list)
    );
    assert_eq!(route(connected()), Routed::Violation(connected()));
    assert_eq!(route(authenticated()), Routed::Violation(authenticated()));
    assert_eq!(route(trade("A", 1)), Routed::Data(trade("A", 1)));
    assert_eq!(route(quote_message("A")), Routed::Data(quote_message("A")));
    assert_eq!(
        route(StreamMessage::Error(FeedError::NotAuthenticated)),
        Routed::Data(StreamMessage::Error(FeedError::NotAuthenticated))
    );
}
