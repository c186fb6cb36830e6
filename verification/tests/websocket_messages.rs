use redwood::binance::{self, BinanceApiDetails, BinanceWSTag};
use redwood::binance::StreamOutcome;
use redwood::ftx::{self, FtxApiDetails, FtxIncoming, FtxUpdate, FtxWSTag};

use serde_json::Value;

fn object(fields: Vec<(&str, Value)>) -> String {
    let mut m = serde_json::Map::new();
    for (k, v) in fields {
        m.insert(k.to_string(), v);
    }
    Value::Object(m).to_string()
}

fn text(s: &str) -> Value {
    Value::String(s.to_string())
}

fn markets(v: &[&str]) -> Option<Vec<String>> {
    Some(v.iter().map(|s| s.to_string()).collect())
}

#[test]
fn ftx_tag_names() {
    assert_eq!(FtxWSTag::OrderbookUpdates.as_str(), "orderbook_update");
    assert_eq!(FtxWSTag::OrderUpdates.as_str(), "order_update");
    assert_eq!(FtxWSTag::FillUpdates.as_str(), "fill_update");
}

#[test]
fn ftx_tag_names_read_back() {
    for t in [FtxWSTag::OrderbookUpdates, FtxWSTag::OrderUpdates, FtxWSTag::FillUpdates] {
        assert_eq!(FtxWSTag::from_str(t.as_str()), t);
    }
    assert_eq!(FtxWSTag::from_str("fill_update"), FtxWSTag::FillUpdates);
}

#[test]
fn binance_tag_names() {
    assert_eq!(BinanceWSTag::OrderbookUpdates.as_str(), "orderbook_update");
    assert_eq!(BinanceWSTag::OrderUpdates.as_str(), "order_update");
    assert_eq!(BinanceWSTag::FillUpdates.as_str(), "fill_update");
}

#[test]
fn credentials_are_copied() {
    let f = FtxApiDetails::from_values("k", "s", "sub");
    assert_eq!((f.api_key(), f.api_secret(), f.api_subaccount()), ("k", "s", "sub"));
    let b = BinanceApiDetails::from_values("bk", "bs", "");
    assert_eq!((b.api_key(), b.api_secret(), b.api_subaccount()), ("bk", "bs", ""));
}

#[test]
fn ftx_connectors_without_credentials() {
    let plan = ftx::ws_connectors(&None);
    assert_eq!(plan.len(), 1);
    assert_eq!(plan[0].0, FtxWSTag::OrderbookUpdates);
    assert!(plan[0].1.is_none());
}

#[test]
fn ftx_connectors_with_credentials() {
    let d = FtxApiDetails::from_values("k", "s", "sub");
    let plan = ftx::ws_connectors(&Some(d));
    let tags: Vec<FtxWSTag> = plan.iter().map(|p| p.0).collect();
    assert_eq!(tags, vec![FtxWSTag::OrderbookUpdates, FtxWSTag::OrderUpdates, FtxWSTag::FillUpdates]);
    assert!(plan[0].1.is_none());
    for p in &plan[1..] {
        let d = p.1.as_ref().unwrap();
        assert_eq!((d.api_key(), d.api_secret(), d.api_subaccount()), ("k", "s", "sub"));
    }
}

#[test]
fn ftx_orderbook_subscriptions_one_per_market() {
    let msgs = ftx::subscribe_messages(FtxWSTag::OrderbookUpdates, &markets(&["BTC-PERP", "BTC/USD"]));
    assert_eq!(
        msgs,
        vec![
            r#"{"channel":"orderbook","market":"BTC-PERP","op":"subscribe"}"#.to_string(),
            r#"{"channel":"orderbook","market":"BTC/USD","op":"subscribe"}"#.to_string(),
        ]
    );
}

#[test]
fn ftx_orderbook_subscriptions_match_serde_json() {
    let ms = ["ETH-PERP", "we\"ird\\name\n\u{1}"];
    let msgs = ftx::subscribe_messages(FtxWSTag::OrderbookUpdates, &markets(&ms));
    for (m, sent) in ms.iter().zip(msgs.iter()) {
        let expected = object(vec![("op", text("subscribe")), ("channel", text("orderbook")), ("market", text(m))]);
        assert_eq!(sent, &expected);
    }
    assert_eq!(msgs[1], "{\"channel\":\"orderbook\",\"market\":\"we\\\"ird\\\\name\\n\\u0001\",\"op\":\"subscribe\"}");
}

#[test]
fn ftx_orderbook_without_markets_sends_nothing() {
    assert!(ftx::subscribe_messages(FtxWSTag::OrderbookUpdates, &None).is_empty());
    assert!(ftx::subscribe_messages(FtxWSTag::OrderbookUpdates, &Some(Vec::new())).is_empty());
}

#[test]
fn ftx_private_feeds_subscribe_once() {
    let m = markets(&["BTC-PERP", "ETH-PERP"]);
    assert_eq!(ftx::subscribe_messages(FtxWSTag::OrderUpdates, &m), vec![r#"{"channel":"orders","op":"subscribe"}"#.to_string()]);
    assert_eq!(ftx::subscribe_messages(FtxWSTag::FillUpdates, &None), vec![r#"{"channel":"fills","op":"subscribe"}"#.to_string()]);
}

#[test]
fn ftx_channels_route_to_updates() {
    assert_eq!(ftx::update_kind("orderbook"), Some(FtxUpdate::Orderbook));
    assert_eq!(ftx::update_kind("orders"), Some(FtxUpdate::Order));
    assert_eq!(ftx::update_kind("fills"), Some(FtxUpdate::Fill));
    assert_eq!(ftx::update_kind("trades"), None);
    assert_eq!(ftx::update_kind(""), None);
    assert_eq!(ftx::update_kind("Orders"), None);
}

#[test]
fn binance_trade_subscriptions() {
    let msgs = binance::subscribe_messages(BinanceWSTag::OrderbookUpdates, &markets(&["btcusdt", "ethusdt"]));
    assert_eq!(
        msgs,
        vec![
            r#"{"id":1,"method":"SUBSCRIBE","params":["btcusdt@trade"]}"#.to_string(),
            r#"{"id":1,"method":"SUBSCRIBE","params":["ethusdt@trade"]}"#.to_string(),
        ]
    );
    let expected = object(vec![
        ("method", text("SUBSCRIBE")),
        ("params", Value::Array(vec![text(&format!("{}@trade", "x\"y"))])),
        ("id", Value::from(1)),
    ]);
    assert_eq!(binance::subscribe_messages(BinanceWSTag::OrderbookUpdates, &markets(&["x\"y"]))[0], expected);
}

#[test]
fn binance_other_streams_send_nothing() {
    let m = markets(&["btcusdt"]);
    assert!(binance::subscribe_messages(BinanceWSTag::OrderUpdates, &m).is_empty());
    assert!(binance::subscribe_messages(BinanceWSTag::FillUpdates, &m).is_empty());
    assert!(binance::subscribe_messages(BinanceWSTag::OrderbookUpdates, &None).is_empty());
}

#[test]
fn binance_ping() {
    assert_eq!(binance::ping_message(), object(vec![("op", text("ping"))]));
    assert_eq!(binance::ping_message(), r#"{"op":"ping"}"#);
}

#[test]
fn ftx_text_routes_by_channel() {
    match ftx::route_ftx_text(r#"{"channel":"orders","type":"update","data":{"id":42}}"#) {
        FtxIncoming::Update(FtxUpdate::Order, v) => assert_eq!(v["data"]["id"], Value::from(42)),
        _ => panic!("expected an order update"),
    }
    assert!(matches!(ftx::route_ftx_text(r#"{"channel":"orderbook","market":"BTC-PERP"}"#), FtxIncoming::Update(FtxUpdate::Orderbook, _)));
    assert!(matches!(ftx::route_ftx_text(r#"{"channel":"fills"}"#), FtxIncoming::Update(FtxUpdate::Fill, _)));
}

#[test]
fn ftx_text_on_unknown_channel_is_named() {
    match ftx::route_ftx_text(r#"{"channel":"trades"}"#) {
        FtxIncoming::UnknownChannel(c) => assert_eq!(c, "trades"),
        _ => panic!("expected an unknown channel"),
    }
}

#[test]
fn ftx_text_without_channel_or_not_json() {
    match ftx::route_ftx_text(r#"{"type":"pong"}"#) {
        FtxIncoming::NoChannel(v) => assert_eq!(v["type"], text("pong")),
        _ => panic!("expected a message without channel"),
    }
    assert!(matches!(ftx::route_ftx_text(r#"{"channel":7}"#), FtxIncoming::NoChannel(_)));
    assert!(matches!(ftx::route_ftx_text("[1, 2]"), FtxIncoming::NoChannel(_)));
    assert!(matches!(ftx::route_ftx_text("not json"), FtxIncoming::NotJson));
    assert!(matches!(ftx::route_ftx_text(""), FtxIncoming::NotJson));
}

#[test]
fn binance_stream_text_forwards_json_only() {
    match binance::route_stream_text(r#"{"e":"trade","s":"BTCUSDT"}"#) {
        StreamOutcome::Forward(v) => assert_eq!(v["s"], text("BTCUSDT")),
        StreamOutcome::Stop => panic!("expected the message to be forwarded"),
    }
    assert!(matches!(binance::route_stream_text("{\"result\":null,\"id\":1}"), StreamOutcome::Forward(_)));
    assert!(matches!(binance::route_stream_text("{oops"), StreamOutcome::Stop));
}

#[test]
fn binance_connectors() {
    let plan = binance::ws_connectors();
    assert_eq!(plan.len(), 1);
    assert_eq!(plan[0].0, BinanceWSTag::OrderbookUpdates);
    assert!(plan[0].1.is_none());
}

#[test]
fn ftx_update_hands_on_the_received_json() {
    let received = r#"{"channel":"fills","type":"update","data":{"id":1}}"#;
    let parsed: Value = serde_json::from_str(received).unwrap();
    match ftx::route_ftx_text(received) {
        FtxIncoming::Update(FtxUpdate::Fill, m) => assert_eq!(m, parsed),
        _ => panic!("expected a fill update"),
    }
}

#[test]
fn binance_forwards_the_received_json() {
    let received = r#"{"e":"trade","s":"BTCUSDT"}"#;
    let parsed: Value = serde_json::from_str(received).unwrap();
    match binance::route_stream_text(received) {
        StreamOutcome::Forward(m) => assert_eq!(m, parsed),
        StreamOutcome::Stop => panic!("expected the message to be forwarded"),
    }
}
