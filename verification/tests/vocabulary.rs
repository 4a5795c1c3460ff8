use oxidized_alpaca::alpaca_env::{AlpacaAccountType, AlpacaEnv};
use oxidized_alpaca::restful::market_data::stock::bars;
use oxidized_alpaca::restful::market_data::stock::{Adjustment, TimeFrame};
use oxidized_alpaca::restful::rest_client::RequestAPI;
use oxidized_alpaca::restful::trading::accounts::{AccountStatus, Currency};
use oxidized_alpaca::restful::trading::assets::{
    asset_path, AssetClass, AssetRequest, Exchange, Status,
};
use oxidized_alpaca::restful::trading::orders::{Order, OrderType, Side, TimeInForce};
use oxidized_alpaca::restful::RestClient;
use oxidized_alpaca::streaming::codec::DecodeError;
use oxidized_alpaca::streaming::codec::encode_request;
use oxidized_alpaca::streaming::stock_data::{
    Error as FeedError, Request, StreamMessage, Timestamp,
};
use oxidized_alpaca::streaming::SubscriptionList;
use oxidized_alpaca::text::{decimal, str_eq};
use oxidized_alpaca::{AccountType, Env, Error, Feed};

fn paper_env() -> Env {
    Env::new(
        &AccountType::Paper,
        Some("test_paper_key_id".to_string()),
        Some("test_paper_secret_key".to_string()),
    )
    .unwrap()
}

#[test]
fn env_test_env_correct() {
    let alpaca_env = paper_env();
    assert_eq!(alpaca_env.key_id(), "test_paper_key_id");
    assert_eq!(alpaca_env.secret_key(), "test_paper_secret_key");
    let alpaca_env = Env::new(
        &AccountType::Live,
        Some("test_live_key_id".to_string()),
        Some("test_live_secret_key".to_string()),
    )
    .unwrap();
    assert_eq!(alpaca_env.key_id(), "test_live_key_id");
    assert_eq!(alpaca_env.secret_key(), "test_live_secret_key");
    assert_eq!(alpaca_env.censored(), "********");
}

#[test]
fn env_test_paper_key_not_present() {
    let res = Env::new(&AccountType::Paper, None, Some("s".to_string()));
    assert!(res.is_err());
    assert_eq!(
        res.err(),
        Some(Error::MissingEnvironmentVariable {
            variable_name: "ALPACA_PAPER_API_KEY_ID".to_string()
        })
    );
    // The key is looked for first: it is named when both are missing.
    assert_eq!(
        Env::new(&AccountType::Paper, None, None).err(),
        Some(Error::MissingEnvironmentVariable {
            variable_name: "ALPACA_PAPER_API_KEY_ID".to_string()
        })
    );
}

#[test]
fn env_test_paper_secret_not_present() {
    let res = Env::new(&AccountType::Paper, Some("k".to_string()), None);
    assert!(res.is_err());
    assert_eq!(
        res.err(),
        Some(Error::MissingEnvironmentVariable {
            variable_name: "ALPACA_PAPER_API_SECRET_KEY".to_string()
        })
    );
}

#[test]
fn env_test_live_key_id_not_present() {
    let res = Env::new(&AccountType::Live, None, Some("s".to_string()));
    assert!(res.is_err());
    assert_eq!(
        res.err(),
        Some(Error::MissingEnvironmentVariable {
            variable_name: "ALPACA_LIVE_API_KEY_ID".to_string()
        })
    );
}

#[test]
fn env_test_live_secret_key_not_present() {
    let res = Env::new(&AccountType::Live, Some("k".to_string()), None);
    assert!(res.is_err());
    assert_eq!(
        res.err(),
        Some(Error::MissingEnvironmentVariable {
            variable_name: "ALPACA_LIVE_API_SECRET_KEY".to_string()
        })
    );
}

#[test]
fn env_names_its_variables() {
    assert_eq!(
        Env::variable_names(&AccountType::Paper),
        ("ALPACA_PAPER_API_KEY_ID", "ALPACA_PAPER_API_SECRET_KEY")
    );
    assert_eq!(
        Env::variable_names(&AccountType::Live),
        ("ALPACA_LIVE_API_KEY_ID", "ALPACA_LIVE_API_SECRET_KEY")
    );
}

#[test]
fn alpaca_env_test_env_correct() {
    let alpaca_env = AlpacaEnv::new(
        AlpacaAccountType::Paper,
        "test_paper_key_id".to_string(),
        "test_paper_secret_key".to_string(),
    );
    assert!(alpaca_env.account_type == AlpacaAccountType::Paper);
    assert_eq!(alpaca_env.key_id, "test_paper_key_id");
    assert_eq!(alpaca_env.secret_key, "test_paper_secret_key");
    let alpaca_env = AlpacaEnv::new(
        AlpacaAccountType::Live,
        "test_live_key_id".to_string(),
        "test_live_secret_key".to_string(),
    );
    assert!(alpaca_env.account_type == AlpacaAccountType::Live);
    assert_eq!(alpaca_env.key_id, "test_live_key_id");
    assert_eq!(alpaca_env.secret_key, "test_live_secret_key");
}

#[test]
fn alpaca_env_names_the_missing_variable() {
    let found = |text: &str| Some(text.to_string());
    let env = AlpacaEnv::from_environment(AlpacaAccountType::Paper, found("k"), found("s"));
    assert!(env == Ok(AlpacaEnv::new(AlpacaAccountType::Paper, "k".to_string(), "s".to_string())));
    let missing = |name: &str| {
        Err(Error::MissingEnvironmentVariable {
            variable_name: name.to_string(),
        })
    };
    assert!(
        AlpacaEnv::from_environment(AlpacaAccountType::Paper, None, found("s"))
            == missing("ALPACA_PAPER_API_KEY_ID")
    );
    assert!(
        AlpacaEnv::from_environment(AlpacaAccountType::Paper, None, None)
            == missing("ALPACA_PAPER_API_KEY_ID")
    );
    assert!(
        AlpacaEnv::from_environment(AlpacaAccountType::Paper, found("k"), None)
            == missing("ALPACA_PAPER_API_SECRET_KEY")
    );
    assert!(
        AlpacaEnv::from_environment(AlpacaAccountType::Live, None, found("s"))
            == missing("ALPACA_LIVE_API_KEY_ID")
    );
    assert!(
        AlpacaEnv::from_environment(AlpacaAccountType::Live, found("k"), None)
            == missing("ALPACA_LIVE_API_SECRET_KEY")
    );
    assert_eq!(
        AlpacaAccountType::Live.variable_names(),
        ("ALPACA_LIVE_API_KEY_ID", "ALPACA_LIVE_API_SECRET_KEY")
    );
    assert_eq!(
        AlpacaAccountType::Paper.variable_names(),
        ("ALPACA_PAPER_API_KEY_ID", "ALPACA_PAPER_API_SECRET_KEY")
    );
}

#[test]
fn account_type_endpoints() {
    assert_eq!(
        AccountType::Paper.endpoint(),
        "https://paper-api.alpaca.markets/v2/"
    );
    assert_eq!(AccountType::Live.endpoint(), "https://api.alpaca.markets/v2/");
    assert_eq!(AccountType::Paper.as_str(), "Paper");
    assert_eq!(AccountType::parse("Live"), Some(AccountType::Live));
    assert_eq!(AccountType::parse("live"), None);
}

#[test]
fn feed_streaming_urls() {
    let cases = [
        (
            Feed::IEX,
            "wss://stream.data.sandbox.alpaca.markets/v2/iex",
            "wss://stream.data.alpaca.markets/v2/iex",
        ),
        (
            Feed::SIP,
            "wss://stream.data.sandbox.alpaca.markets/v2/sip",
            "wss://stream.data.alpaca.markets/v2/sip",
        ),
        (
            Feed::Test,
            "wss://stream.data.alpaca.markets/v2/test",
            "wss://stream.data.alpaca.markets/v2/test",
        ),
        (
            Feed::Crypto,
            "wss://stream.data.sandbox.alpaca.markets/v1beta3/crypto",
            "wss://stream.data.alpaca.markets/v1beta3/crypto",
        ),
        (
            Feed::News,
            "wss://stream.data.sandbox.alpaca.markets/v1beta1/news",
            "wss://stream.data.alpaca.markets/v1beta1/news",
        ),
    ];
    for (feed, paper, live) in cases {
        assert_eq!(feed.streaming_url(AccountType::Paper), paper);
        assert_eq!(feed.streaming_url(AccountType::Live), live);
        assert_eq!(feed.streaming_url_paper(), paper);
        assert_eq!(feed.streaming_url_live(), live);
        // Paper is served from the sandbox, live from production.
        assert!(!live.contains("sandbox"));
        if feed != Feed::Test {
            assert!(paper.contains("stream.data.sandbox.alpaca.markets"));
            assert_ne!(paper, live);
        }
    }
}

#[test]
fn feed_wire_names() {
    let cases = [
        (Feed::IEX, "iex"),
        (Feed::SIP, "sip"),
        (Feed::Test, "test"),
        (Feed::Crypto, "crypto"),
        (Feed::News, "news"),
    ];
    for (feed, name) in cases {
        assert_eq!(feed.as_str(), name);
        assert_eq!(Feed::parse(name), Some(feed));
    }
    assert_eq!(Feed::parse("IEX"), None);
    assert_eq!(Feed::parse(""), None);
}

#[test]
fn subscription_list_builder() {
    let list = SubscriptionList::new();
    assert_eq!(list, SubscriptionList::default());
    assert_eq!(list.bars, None);
    assert_eq!(list.news, None);
    let list = list
        .add_minute_bars("FAKEPACA")
        .add_minute_bars("AAPL")
        .add_minute_bars("FAKEPACA")
        .add_daily_bars("FAKEPACA")
        .add_daily_bars("FAKEPACA")
        .add_updated_bars("FAKEPACA")
        .add_updated_bars("FAKEPACA")
        .add_quotes("FAKEPACA")
        .add_quotes("FAKEPACA")
        .add_trades("FAKEPACA")
        .add_trades("MSFT")
        .add_news("*");
    let strings = |symbols: &[&str]| Some(symbols.iter().map(|s| s.to_string()).collect::<Vec<_>>());
    // No channel lists a symbol twice.
    assert_eq!(list.bars, strings(&["FAKEPACA", "AAPL"]));
    assert_eq!(list.daily_bars, strings(&["FAKEPACA"]));
    assert_eq!(list.updated_bars, strings(&["FAKEPACA"]));
    assert_eq!(list.quotes, strings(&["FAKEPACA"]));
    assert_eq!(list.trades, strings(&["FAKEPACA", "MSFT"]));
    assert_eq!(list.news, strings(&["*"]));
    let list = list.add_bars("AAPL").add_bars("TSLA").add_news("*");
    assert_eq!(list.bars, strings(&["FAKEPACA", "AAPL", "TSLA"]));
    assert_eq!(list.news, strings(&["*"]));
    assert_eq!(list.duplicate(), list);
}

#[test]
fn adding_a_symbol_twice_lists_it_once() {
    let list = SubscriptionList::new().add_quotes("A").add_quotes("A");
    assert_eq!(list.quotes, Some(vec!["A".to_string()]));
    assert_eq!(list.bars, None);
    assert_eq!(list.daily_bars, None);
    assert_eq!(list.updated_bars, None);
    assert_eq!(list.trades, None);
    assert_eq!(list.news, None);
    let list = SubscriptionList::new().add_trades("A").add_trades("B").add_trades("A");
    assert_eq!(list.trades, Some(vec!["A".to_string(), "B".to_string()]));
    let list = SubscriptionList::new().add_news("A").add_news("A");
    assert_eq!(list.news, Some(vec!["A".to_string()]));
    let list = SubscriptionList::new().add_bars("A").add_minute_bars("A").add_bars("A");
    assert_eq!(list.bars, Some(vec!["A".to_string()]));
}

#[test]
fn default_list_is_the_new_list() {
    let list = SubscriptionList::default();
    assert_eq!(list, SubscriptionList::new());
    assert_eq!(list.bars, None);
    assert_eq!(list.daily_bars, None);
    assert_eq!(list.updated_bars, None);
    assert_eq!(list.quotes, None);
    assert_eq!(list.trades, None);
    assert_eq!(list.news, None);
    assert_eq!(
        encode_request(&Request::Subscribe(list)),
        r#"{"action":"subscribe"}"#
    );
}

#[test]
fn test_account_status() {
    let json = r#"{
            "id": "ccd4e0fc-5416-4b75-bf7d-463c8dcad0fd",
            "admin_configurations": {},
            "user_configurations": null,
            "account_number": "PA3L2HG811OS",
            "status": "ACTIVE",
            "crypto_status": "ACTIVE",
            "currency": "USD",
            "buying_power": "189805.46",
            "regt_buying_power": "189805.46",
            "daytrading_buying_power": "0",
            "effective_buying_power": "189805.46",
            "non_marginable_buying_power": "94902.73",
            "bod_dtbp": "0",
            "cash": "94902.73",
            "accrued_fees": "0",
            "pending_transfer_in": "0",
            "portfolio_value": "94902.73",
            "pattern_day_trader": true,
            "trading_blocked": false,
            "transfers_blocked": false,
            "account_blocked": false,
            "created_at": "2021-12-22T01:09:20.724911Z",
            "trade_suspended_by_user": false,
            "multiplier": "2",
            "shorting_enabled": true,
            "equity": "94902.73",
            "last_equity": "94902.73",
            "long_market_value": "0",
            "short_market_value": "0",
            "position_market_value": "0",
            "initial_margin": "0",
            "maintenance_margin": "0",
            "last_maintenance_margin": "0",
            "sma": "94902.73",
            "daytrade_count": 0,
            "balance_asof": "2024-02-26",
            "crypto_tier": 1
          }"#;
    let account: serde_json::Value = serde_json::from_str(json).unwrap();
    let status = AccountStatus::parse(account["status"].as_str().unwrap());
    assert_eq!(status, Some(AccountStatus::Active));
    let currency = Currency::parse(account["currency"].as_str().unwrap());
    assert_eq!(currency, Some(Currency::USD));
    assert_eq!(
        Timestamp::parse(account["created_at"].as_str().unwrap()),
        Some(Timestamp {
            seconds: 1_640_135_360,
            nanos: 724_911_000
        })
    );
}

#[test]
fn account_vocabulary_wire_names() {
    let cases = [
        (AccountStatus::Onboarding, "ONBOARDING"),
        (AccountStatus::SubmissionFailed, "SUBMISSION_FAILED"),
        (AccountStatus::Submitted, "SUBMITTED"),
        (AccountStatus::AccountUpdated, "ACCOUNT_UPDATED"),
        (AccountStatus::ApprovalPending, "APPROVAL_PENDING"),
        (AccountStatus::Active, "ACTIVE"),
        (AccountStatus::Rejected, "REJECTED"),
    ];
    for (status, name) in cases {
        assert_eq!(status.as_str(), name);
        assert_eq!(AccountStatus::parse(name), Some(status));
    }
    assert_eq!(AccountStatus::parse("active"), None);
    assert_eq!(Currency::USD.as_str(), "USD");
    assert_eq!(Currency::parse("EUR"), None);
}

#[test]
fn asset_vocabulary_wire_names() {
    let classes = [
        (AssetClass::UsEquity, "us_equity"),
        (AssetClass::UsOption, "us_option"),
        (AssetClass::Crypto, "crypto"),
    ];
    for (class, name) in classes {
        assert_eq!(class.as_str(), name);
        assert_eq!(AssetClass::parse(name), Some(class));
    }
    let exchanges = [
        (Exchange::Amex, "AMEX"),
        (Exchange::Arca, "ARCA"),
        (Exchange::Bats, "BATS"),
        (Exchange::Nyse, "NYSE"),
        (Exchange::Nasdaq, "NASDAQ"),
        (Exchange::Nysearca, "NYSEARCA"),
        (Exchange::Otc, "OTC"),
        (Exchange::Crypto, "CRYPTO"),
    ];
    for (exchange, name) in exchanges {
        assert_eq!(exchange.as_str(), name);
        assert_eq!(Exchange::parse(name), Some(exchange));
    }
    assert_eq!(Status::Active.as_str(), "active");
    assert_eq!(Status::Inactive.as_str(), "inactive");
    assert_eq!(Status::parse("inactive"), Some(Status::Inactive));
    assert_eq!(Status::parse("active"), Some(Status::Active));
    assert_eq!(Status::parse("Active"), None);
    assert_eq!(Exchange::parse("otc"), None);
    assert_eq!(AssetClass::parse("US_EQUITY"), None);
}

#[test]
fn test_asset_deserilization() {
    let sample = r#"{
            "id": "931bb17d-f64d-4344-a7c8-af552886c3ff",
            "class": "us_equity",
            "exchange": "OTC",
            "symbol": "ISHHF",
            "name": "Ishares Plc Shs Exchange Traded Fund Eur (Ireland)",
            "status": "inactive",
            "tradable": false,
            "marginable": false,
            "maintenance_margin_requirement": 100,
            "margin_requirement_long": "100",
            "margin_requirement_short": "100",
            "shortable": false,
            "easy_to_borrow": false,
            "fractionable": false,
            "attributes": []
            }"#;
    let asset: serde_json::Value = serde_json::from_str(sample).unwrap();
    assert_eq!(
        AssetClass::parse(asset["class"].as_str().unwrap()),
        Some(AssetClass::UsEquity)
    );
    assert_eq!(
        Exchange::parse(asset["exchange"].as_str().unwrap()),
        Some(Exchange::Otc)
    );
    assert_eq!(
        Status::parse(asset["status"].as_str().unwrap()),
        Some(Status::Inactive)
    );
}

#[test]
fn asset_requests_and_paths() {
    let request = AssetRequest::new();
    assert_eq!(request.status, None);
    assert_eq!(request.asset_class, None);
    assert_eq!(request.exchange, None);
    assert_eq!(request.attributes, None);
    let request = request
        .with_status(Status::Active)
        .with_asset_class(AssetClass::UsEquity)
        .with_exchange(Exchange::Otc)
        .with_attribute_string("ptp_no_exception".to_string());
    assert_eq!(
        request,
        AssetRequest {
            status: Some(Status::Active),
            asset_class: Some(AssetClass::UsEquity),
            exchange: Some(Exchange::Otc),
            attributes: Some("ptp_no_exception".to_string()),
        }
    );
    assert_eq!(
        request.query(),
        vec![
            ("status".to_string(), "active".to_string()),
            ("asset_class".to_string(), "us_equity".to_string()),
            ("exchange".to_string(), "OTC".to_string()),
            ("attributes".to_string(), "ptp_no_exception".to_string()),
        ]
    );
    assert_eq!(AssetRequest::new().query(), vec![]);
    assert_eq!(
        AssetRequest::new().with_exchange(Exchange::Nyse).query(),
        vec![("exchange".to_string(), "NYSE".to_string())]
    );
    assert_eq!(asset_path("AAPL"), "assets/AAPL");
    assert_eq!(asset_path(""), "assets/");
}

#[test]
fn order_vocabulary_wire_names() {
    assert_eq!(Side::Buy.as_str(), "buy");
    assert_eq!(Side::Sell.as_str(), "sell");
    assert_eq!(Side::parse("sell"), Some(Side::Sell));
    assert_eq!(Side::parse("hold"), None);
    let types = [
        (OrderType::Market, "market"),
        (OrderType::Limit, "limit"),
        (OrderType::Stop, "stop"),
        (OrderType::StopLimit, "stoplimit"),
        (OrderType::TrailingStop, "trailingstop"),
    ];
    for (order_type, name) in types {
        assert_eq!(order_type.as_str(), name);
        assert_eq!(OrderType::parse(name), Some(order_type));
    }
    let times = [
        (TimeInForce::Day, "day"),
        (TimeInForce::GoodTilCanceled, "gtc"),
        (TimeInForce::OPG, "opg"),
        (TimeInForce::CLS, "cls"),
        (TimeInForce::IOC, "ioc"),
        (TimeInForce::FOK, "fok"),
    ];
    for (time, name) in times {
        assert_eq!(time.as_str(), name);
        assert_eq!(TimeInForce::parse(name), Some(time));
    }
    assert_eq!(TimeInForce::parse("DAY"), None);
}

#[test]
fn market_order_holds_json_text() {
    let order = Order::place_market_order("AAPL".to_string(), Side::Buy, TimeInForce::Day);
    assert_eq!(order.symbol(), "AAPL");
    assert_eq!(order.side(), "\"buy\"");
    assert_eq!(order.order_type(), "\"market\"");
    assert_eq!(order.time_in_force(), "\"day\"");
    let order = Order::place_market_order(
        "MSFT".to_string(),
        Side::Sell,
        TimeInForce::GoodTilCanceled,
    );
    assert_eq!(order.side(), "\"sell\"");
    assert_eq!(order.time_in_force(), "\"gtc\"");
}

#[test]
fn bars_vocabulary_wire_names() {
    let frames = [
        (TimeFrame::OneMinute, "1Min"),
        (TimeFrame::FiveMinute, "5Min"),
        (TimeFrame::FifteenMinute, "15Min"),
        (TimeFrame::ThirtyMinute, "30Min"),
        (TimeFrame::OneHour, "1Hour"),
        (TimeFrame::TwoHour, "2Hour"),
        (TimeFrame::FourHour, "4Hour"),
        (TimeFrame::OneDay, "1Day"),
        (TimeFrame::OneWeek, "1Week"),
        (TimeFrame::OneMonth, "1Month"),
    ];
    for (frame, name) in frames {
        assert_eq!(frame.as_str(), name);
    }
    assert_eq!(Adjustment::Raw.as_str(), "raw");
    assert_eq!(Adjustment::Split.as_str(), "split");
    assert_eq!(Adjustment::Dividend.as_str(), "dividend");
    assert_eq!(Adjustment::All.as_str(), "all");
}

#[test]
fn bars_request_builder_and_pages() {
    let start = Timestamp {
        seconds: 1_636_070_400,
        nanos: 0,
    };
    let end = Timestamp {
        seconds: 1_636_156_800,
        nanos: 0,
    };
    assert_eq!(
        bars::Request::new("AAPL", TimeFrame::OneDay),
        bars::get("AAPL", TimeFrame::OneDay)
    );
    let mut request = bars::get("AAPL", TimeFrame::OneDay);
    assert_eq!(request.symbol, "AAPL");
    assert_eq!(request.time_frame, TimeFrame::OneDay);
    assert_eq!(request.limit, None);
    assert_eq!(request.page_token, None);
    assert_eq!(request.path(), "v2/stocks/AAPL/bars");
    request = request
        .start(start)
        .end(end)
        .limit(50)
        .adjustment(Adjustment::All)
        .feed(Feed::IEX);
    assert_eq!(request.start, Some(start));
    assert_eq!(request.end, Some(end));
    assert_eq!(request.limit, Some(50));
    assert_eq!(request.adjustment, Some(Adjustment::All));
    assert_eq!(request.feed, Some(Feed::IEX));

    let pairs = |pairs: &[(&str, &str)]| {
        pairs
            .iter()
            .map(|(name, value)| (name.to_string(), value.to_string()))
            .collect::<Vec<_>>()
    };
    assert_eq!(
        bars::get("AAPL", TimeFrame::OneDay).query(),
        pairs(&[("timeframe", "1Day")])
    );
    assert_eq!(
        request.query(),
        pairs(&[
            ("timeframe", "1Day"),
            ("limit", "50"),
            ("start", "2021-11-05T00:00:00Z"),
            ("end", "2021-11-06T00:00:00Z"),
            ("adjustment", "all"),
            ("feed", "iex"),
        ])
    );
    let odd = bars::get("AAPL", TimeFrame::FiveMinute)
        .start(Timestamp {
            seconds: 1,
            nanos: 500_000_000,
        })
        .end(Timestamp {
            seconds: i64::MAX,
            nanos: 0,
        })
        .limit(0);
    assert_eq!(
        odd.query(),
        pairs(&[
            ("timeframe", "5Min"),
            ("limit", "0"),
            ("start", "1970-01-01T00:00:01.500Z"),
        ])
    );

    let mut results: Vec<u32> = vec![];
    assert!(request.take_page(&mut results, vec![1, 2], Some("next".to_string())));
    assert_eq!(request.page_token, Some("next".to_string()));
    assert!(request.take_page(&mut results, vec![], Some("last".to_string())));
    assert_eq!(request.page_token, Some("last".to_string()));
    assert!(!request.take_page(&mut results, vec![3], None));
    assert_eq!(request.page_token, Some("last".to_string()));
    assert_eq!(results, vec![1, 2, 3]);
    assert_eq!(
        request.query().last(),
        Some(&("page_token".to_string(), "last".to_string()))
    );
}

#[test]
fn numbers_are_written_in_decimal() {
    assert_eq!(decimal(0), "0");
    assert_eq!(decimal(7), "7");
    assert_eq!(decimal(10), "10");
    assert_eq!(decimal(10_000), "10000");
    assert_eq!(decimal(1_234_567_890), "1234567890");
    assert_eq!(decimal(usize::MAX), usize::MAX.to_string());
    assert!(str_eq("AAPL", "AAPL"));
    assert!(!str_eq("AAPL", "AAPl"));
    assert!(!str_eq("AAPL", "AAP"));
    assert!(str_eq("", ""));
}

#[test]
fn timestamps_are_written_as_rfc3339() {
    let instant = Timestamp {
        seconds: 1_614_009_104,
        nanos: 208_000_000,
    };
    assert_eq!(
        instant.format(),
        Some("2021-02-22T15:51:44.208Z".to_string())
    );
    assert_eq!(
        Timestamp::parse(&instant.format().unwrap()),
        Some(instant)
    );
    assert_eq!(
        Timestamp {
            seconds: i64::MIN,
            nanos: 0
        }
        .format(),
        None
    );
}

#[test]
fn rest_client_hosts_urls_and_headers() {
    let paper = RestClient::new(AccountType::Paper, paper_env());
    let live = RestClient::new(AccountType::Live, paper_env());
    assert_eq!(
        paper.host(RequestAPI::Trading),
        "https://paper-api.alpaca.markets/v2/"
    );
    assert_eq!(
        live.host(RequestAPI::Trading),
        "https://api.alpaca.markets/v2/"
    );
    assert_eq!(
        paper.host(RequestAPI::StockMarketData),
        "https://api.alpaca.markets/v2/"
    );
    assert_eq!(
        live.host(RequestAPI::StockMarketData),
        "https://api.alpaca.markets/v2/"
    );
    assert_eq!(
        paper.url(RequestAPI::Trading, "account").unwrap().as_str(),
        "https://paper-api.alpaca.markets/v2/account"
    );
    assert_eq!(
        live.url(RequestAPI::Trading, "assets/AAPL").unwrap().as_str(),
        "https://api.alpaca.markets/v2/assets/AAPL"
    );
    assert!(matches!(
        paper.url(RequestAPI::Trading, "https://[bad"),
        Err(Error::UrlParse(_))
    ));
    assert_eq!(
        paper.headers(),
        (
            ("APCA-API-KEY-ID", "test_paper_key_id"),
            ("APCA-API-SECRET-KEY", "test_paper_secret_key")
        )
    );
}

#[test]
fn errors_describe_themselves() {
    assert_eq!(
        Error::MissingEnvironmentVariable {
            variable_name: "ALPACA_LIVE_API_KEY_ID".to_string()
        }
        .message(),
        "Required environment variable not set: ALPACA_LIVE_API_KEY_ID"
    );
    assert_eq!(Error::Closed.message(), "The session is closed");
    assert_eq!(
        Error::HandshakeIncomplete.message(),
        "The handshake is not complete"
    );
    assert_eq!(
        Error::UnexpectedStatus(200).message(),
        "The websocket was not accepted"
    );
    let message = StreamMessage::Error(FeedError::AuthFailed);
    assert_eq!(
        Error::UnexpectedConnectionMessage(message.clone()).message(),
        "Unexpected message in place of the connection acknowledgement"
    );
    assert_eq!(
        Error::StreamingAuth {
            response: message.clone()
        }
        .message(),
        "Streaming Auth error"
    );
    assert_eq!(
        Error::UnexpectedMessage(message).message(),
        "Unexpected message after the handshake"
    );
    assert_eq!(
        Error::Decode(DecodeError::InvalidJson).message(),
        "The frame is not JSON"
    );
    assert_eq!(
        Error::Decode(DecodeError::NotABatch).message(),
        "The frame is not a list of messages"
    );
    assert_eq!(
        Error::Decode(DecodeError::Malformed { index: 3 }).message(),
        "The frame holds what is no message"
    );
    assert_eq!(
        Error::UrlParse(url::ParseError::EmptyHost).message(),
        "Url parse error"
    );
}
