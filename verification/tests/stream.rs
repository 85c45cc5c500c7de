use alpaca_sdk::stream::{
    trade_updates_url, ControlMessage, StreamEndpoint, StreamMessageKind, SubscriptionAction,
};
use alpaca_sdk::{AlpacaConfig, MarketDataFeed};

fn parsed(message: &ControlMessage) -> serde_json::Value {
    let text = message.encode().unwrap();
    serde_json::from_str(&text).unwrap()
}

#[test]
fn market_data_feed_urls() {
    assert_eq!(
        MarketDataFeed::Sip.url(),
        "wss://stream.data.alpaca.markets/v2/sip"
    );
    assert_eq!(
        MarketDataFeed::Iex.url(),
        "wss://stream.data.alpaca.markets/v2/iex"
    );
    assert_eq!(
        MarketDataFeed::Test.url(),
        "wss://stream.data.alpaca.markets/v2/test"
    );
}

#[test]
fn subscription_message_format() {
    let message = ControlMessage::subscribe(&["AAPL"], &["TSLA", "SPY"], &[]);
    let msg = parsed(&message);
    assert_eq!(msg["action"], "subscribe");
    assert_eq!(msg["trades"][0], "AAPL");
    assert_eq!(msg["quotes"].as_array().unwrap().len(), 2);
    assert!(msg["bars"].as_array().unwrap().is_empty());
}

#[test]
fn auth_message_format() {
    let config = AlpacaConfig::paper("test_key".into(), "test_secret".into());
    let auth = parsed(&ControlMessage::market_data_auth(&config));
    assert_eq!(auth["action"], "auth");
    assert_eq!(auth["key"], "test_key");
    assert_eq!(auth["secret"], "test_secret");
}

#[test]
fn trade_updates_url_construction() {
    let config = AlpacaConfig::paper("key".into(), "secret".into());
    let url = config.trading_base_url.replace("https://", "wss://") + "/stream";
    assert_eq!(url, "wss://paper-api.alpaca.markets/stream");
    assert_eq!(trade_updates_url(&config), "wss://paper-api.alpaca.markets/stream");
}

#[test]
fn trade_updates_url_live() {
    let config = AlpacaConfig {
        api_key_id: "key".into(),
        api_secret_key: "secret".into(),
        trading_base_url: "https://api.alpaca.markets".into(),
        market_data_base_url: "https://data.alpaca.markets".into(),
    };
    let url = config.trading_base_url.replace("https://", "wss://") + "/stream";
    assert_eq!(url, "wss://api.alpaca.markets/stream");
    assert_eq!(trade_updates_url(&config), "wss://api.alpaca.markets/stream");
}

#[test]
fn trade_updates_url_replaces_every_scheme() {
    let config = AlpacaConfig {
        api_key_id: "key".into(),
        api_secret_key: "secret".into(),
        trading_base_url: "https://a/https://b".into(),
        market_data_base_url: String::new(),
    };
    assert_eq!(trade_updates_url(&config), "wss://a/wss://b/stream");
}

#[test]
fn trade_updates_url_without_scheme() {
    let config = AlpacaConfig {
        api_key_id: "key".into(),
        api_secret_key: "secret".into(),
        trading_base_url: "http://localhost:8080".into(),
        market_data_base_url: String::new(),
    };
    assert_eq!(trade_updates_url(&config), "http://localhost:8080/stream");
}

#[test]
fn paper_config_has_paper_urls() {
    let config = AlpacaConfig::paper("k".to_string(), "s".to_string());
    assert_eq!(config.api_key_id, "k");
    assert_eq!(config.api_secret_key, "s");
    assert_eq!(config.trading_base_url, "https://paper-api.alpaca.markets");
    assert_eq!(config.market_data_base_url, "https://data.alpaca.markets");
}

#[test]
fn subscribe_emits_all_three_lists() {
    let message = ControlMessage::subscribe(&["AAPL"], &[], &["SPY"]);
    match &message {
        ControlMessage::Subscription {
            action,
            trades,
            quotes,
            bars,
        } => {
            assert_eq!(*action, SubscriptionAction::Subscribe);
            assert_eq!(trades, &vec!["AAPL".to_string()]);
            assert!(quotes.is_empty());
            assert_eq!(bars, &vec!["SPY".to_string()]);
        }
        _ => panic!("expected Subscription"),
    }
    let text = message.encode().unwrap();
    assert_eq!(
        text,
        "{\"action\":\"subscribe\",\"bars\":[\"SPY\"],\"quotes\":[],\"trades\":[\"AAPL\"]}"
    );
    let msg: serde_json::Value = serde_json::from_str(&text).unwrap();
    assert_eq!(msg.as_object().unwrap().len(), 4);
    assert_eq!(msg["action"], "subscribe");
    assert_eq!(msg["trades"].as_array().unwrap().len(), 1);
    assert_eq!(msg["trades"][0], "AAPL");
    assert!(msg["quotes"].as_array().unwrap().is_empty());
    assert_eq!(msg["bars"].as_array().unwrap().len(), 1);
    assert_eq!(msg["bars"][0], "SPY");
}

#[test]
fn unsubscribe_names_its_action() {
    let message = ControlMessage::unsubscribe(&["AAPL", "MSFT"], &["TSLA"], &[]);
    let text = message.encode().unwrap();
    assert_eq!(
        text,
        "{\"action\":\"unsubscribe\",\"bars\":[],\"quotes\":[\"TSLA\"],\"trades\":[\"AAPL\",\"MSFT\"]}"
    );
}

#[test]
fn single_kind_subscriptions() {
    let trades = parsed(&ControlMessage::subscribe_trades(&["AAPL"]));
    assert_eq!(trades["action"], "subscribe");
    assert_eq!(trades["trades"][0], "AAPL");
    assert!(trades["quotes"].as_array().unwrap().is_empty());
    assert!(trades["bars"].as_array().unwrap().is_empty());

    let quotes = parsed(&ControlMessage::subscribe_quotes(&["TSLA"]));
    assert!(quotes["trades"].as_array().unwrap().is_empty());
    assert_eq!(quotes["quotes"][0], "TSLA");
    assert!(quotes["bars"].as_array().unwrap().is_empty());

    let bars = parsed(&ControlMessage::subscribe_bars(&["SPY", "QQQ"]));
    assert!(bars["trades"].as_array().unwrap().is_empty());
    assert!(bars["quotes"].as_array().unwrap().is_empty());
    assert_eq!(bars["bars"][1], "QQQ");
}

#[test]
fn trade_updates_handshake_and_listen() {
    let config = AlpacaConfig::paper("test_key".into(), "test_secret".into());
    let auth = ControlMessage::trade_updates_auth(&config).encode().unwrap();
    assert_eq!(
        auth,
        "{\"action\":\"authenticate\",\"data\":{\"key_id\":\"test_key\",\"secret_key\":\"test_secret\"}}"
    );
    let listen = ControlMessage::listen_trade_updates().encode().unwrap();
    assert_eq!(
        listen,
        "{\"action\":\"listen\",\"data\":{\"streams\":[\"trade_updates\"]}}"
    );
}

#[test]
fn encoded_text_is_what_the_json_library_writes() {
    let config = AlpacaConfig::paper("k\"1\\".into(), "line\nbreak\u{1}\u{e9}".into());
    let text = ControlMessage::market_data_auth(&config).encode().unwrap();

    let mut object = serde_json::Map::new();
    object.insert(
        "action".to_string(),
        serde_json::Value::String("auth".to_string()),
    );
    object.insert(
        "key".to_string(),
        serde_json::Value::String(config.api_key_id.clone()),
    );
    object.insert(
        "secret".to_string(),
        serde_json::Value::String(config.api_secret_key.clone()),
    );
    let expected = serde_json::to_string(&serde_json::Value::Object(object)).unwrap();
    assert_eq!(text, expected);
    assert!(text.contains("k\\\"1\\\\"));

    let back: serde_json::Value = serde_json::from_str(&text).unwrap();
    assert_eq!(back["key"], "k\"1\\");
    assert_eq!(back["secret"], "line\nbreak\u{1}\u{e9}");
}

#[test]
fn subscription_text_is_what_the_json_library_writes() {
    let text = ControlMessage::subscription(
        SubscriptionAction::Subscribe,
        &["AAPL"],
        &["TSLA", "SPY"],
        &[],
    )
    .encode()
    .unwrap();
    let list = |items: &[&str]| {
        serde_json::Value::Array(
            items
                .iter()
                .map(|s| serde_json::Value::String(s.to_string()))
                .collect(),
        )
    };
    let mut object = serde_json::Map::new();
    object.insert(
        "action".to_string(),
        serde_json::Value::String("subscribe".to_string()),
    );
    object.insert("trades".to_string(), list(&["AAPL"]));
    object.insert("quotes".to_string(), list(&["TSLA", "SPY"]));
    object.insert("bars".to_string(), list(&[]));
    let expected = serde_json::to_string(&serde_json::Value::Object(object)).unwrap();
    assert_eq!(text, expected);
}

#[test]
fn message_kinds_by_tag() {
    let kinds = [
        (StreamMessageKind::Success, "success"),
        (StreamMessageKind::Error, "error"),
        (StreamMessageKind::Subscription, "subscription"),
        (StreamMessageKind::Trade, "t"),
        (StreamMessageKind::Quote, "q"),
        (StreamMessageKind::Bar, "b"),
    ];
    for (kind, tag) in kinds {
        assert_eq!(kind.tag(), tag);
        assert_eq!(StreamMessageKind::from_tag(tag), Some(kind));
        assert_eq!(StreamMessageKind::from_tag(kind.tag()), Some(kind));
    }
    for tag in ["", "T", "Success", "trade", "tt", "success ", "\u{e9}"] {
        assert_eq!(StreamMessageKind::from_tag(tag), None);
    }
}

#[test]
fn stream_endpoints_pair_url_and_handshake() {
    let config = AlpacaConfig::paper("test_key".into(), "test_secret".into());
    let market = StreamEndpoint::market_data(&config, MarketDataFeed::Iex);
    assert_eq!(market.url, "wss://stream.data.alpaca.markets/v2/iex");
    assert_eq!(
        market.handshake.encode().unwrap(),
        "{\"action\":\"auth\",\"key\":\"test_key\",\"secret\":\"test_secret\"}"
    );
    let account = StreamEndpoint::trade_updates(&config);
    assert_eq!(account.url, "wss://paper-api.alpaca.markets/stream");
    match account.handshake {
        ControlMessage::Authenticate { key_id, secret_key } => {
            assert_eq!(key_id, "test_key");
            assert_eq!(secret_key, "test_secret");
        }
        _ => panic!("expected Authenticate"),
    }
}
