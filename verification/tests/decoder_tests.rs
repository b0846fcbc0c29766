use tradewatch::frames::{classify_text, handle_frame, FrameAction, InboundEvent, WsFrame};
use tradewatch::json::JsonNum;
use tradewatch::trade::{decode_text, side_of, TradeSide};
use tradewatch::watcher::subscribe_message;

fn num_to_f64(n: &JsonNum) -> f64 {
    match n {
        JsonNum::Int(i) => *i as f64,
        JsonNum::Other(s) => s.parse().unwrap(),
    }
}

#[test]
fn malformed_json_yields_no_record() {
    for text in [
        "",
        "{",
        "{not json",
        "{\"type\":}",
        "[1,2",
        "tradetrade",
        "{\"type\":\"trade\",}",
    ] {
        assert_eq!(decode_text(text, "0xAAA"), None);
        assert_eq!(classify_text(text, "0xAAA"), InboundEvent::Ignored);
    }
}

#[test]
fn valid_json_without_trade_type_yields_no_record() {
    for text in ["5", "\"trade\"", "[]", "{}", "{\"type\":5}", "{\"type\":null}"] {
        assert_eq!(decode_text(text, "0xAAA"), None);
    }
}

#[test]
fn side_tokens_normalize_to_closed_set() {
    for token in ["buy", "Buy", "BUY", "bUy"] {
        assert_eq!(side_of(token), Some(TradeSide::BUY));
    }
    for token in ["sell", "Sell", "SELL", "sElL"] {
        assert_eq!(side_of(token), Some(TradeSide::SELL));
    }
    for token in ["", "buys", "SEL", "hold", "BUY ", " buy", "b", "ssell"] {
        assert_eq!(side_of(token), None);
    }
}

#[test]
fn unresolvable_side_drops_record() {
    let text = "{\"type\":\"trade\",\"data\":{\"event_id\":\"e1\",\"market_id\":\"m1\",\
                \"side\":\"hold\",\"shares\":10,\"price\":0.5,\"timestamp\":1000}}";
    assert_eq!(decode_text(text, "0xAAA"), None);
}

#[test]
fn trade_scenario_yields_exactly_one_record() {
    let text = "{\"type\":\"trade\",\"data\":{\"event_id\":\"e1\",\"market_id\":\"m1\",\
                \"side\":\"buy\",\"shares\":10,\"price\":0.5,\"timestamp\":1000}}";
    let trade = decode_text(text, "0xAAA").expect("the event must decode");
    assert_eq!(trade.wallet, "0xAAA");
    assert_eq!(trade.event_id, "e1");
    assert_eq!(trade.market_id, "m1");
    assert_eq!(trade.side, TradeSide::BUY);
    assert_eq!(num_to_f64(&trade.shares), 10.0);
    assert_eq!(num_to_f64(&trade.price), 0.5);
    assert_eq!(trade.timestamp, 1000);
    assert_eq!(trade.tx_hash, None);
}

#[test]
fn nested_data_field_preferred_over_flat() {
    let text = "{\"type\":\"trade\",\"market_id\":\"flat\",\
                \"data\":{\"event_id\":\"e1\",\"market_id\":\"nested\",\"side\":\"sell\",\
                \"shares\":1,\"price\":2,\"timestamp\":3}}";
    let trade = decode_text(text, "w").unwrap();
    assert_eq!(trade.market_id, "nested");
    assert_eq!(trade.side, TradeSide::SELL);
}

#[test]
fn null_or_missing_nested_field_falls_back_to_flat() {
    let text = "{\"type\":\"trade\",\"market_id\":\"flat\",\"event_id\":\"e9\",\
                \"data\":{\"market_id\":null,\"side\":\"BUY\",\
                \"shares\":1,\"price\":2,\"timestamp\":3}}";
    let trade = decode_text(text, "w").unwrap();
    assert_eq!(trade.market_id, "flat");
    assert_eq!(trade.event_id, "e9");
}

#[test]
fn each_missing_required_field_drops_record() {
    let whole = "{\"type\":\"trade\",\"data\":{\"event_id\":\"e\",\"market_id\":\"m\",\
                 \"side\":\"buy\",\"shares\":1,\"price\":2,\"timestamp\":3}}";
    assert!(decode_text(whole, "w").is_some());
    for gutted in [
        "{\"type\":\"trade\",\"data\":{\"market_id\":\"m\",\"side\":\"buy\",\"shares\":1,\"price\":2,\"timestamp\":3}}",
        "{\"type\":\"trade\",\"data\":{\"event_id\":\"e\",\"side\":\"buy\",\"shares\":1,\"price\":2,\"timestamp\":3}}",
        "{\"type\":\"trade\",\"data\":{\"event_id\":\"e\",\"market_id\":\"m\",\"shares\":1,\"price\":2,\"timestamp\":3}}",
        "{\"type\":\"trade\",\"data\":{\"event_id\":\"e\",\"market_id\":\"m\",\"side\":\"buy\",\"price\":2,\"timestamp\":3}}",
        "{\"type\":\"trade\",\"data\":{\"event_id\":\"e\",\"market_id\":\"m\",\"side\":\"buy\",\"shares\":1,\"timestamp\":3}}",
        "{\"type\":\"trade\",\"data\":{\"event_id\":\"e\",\"market_id\":\"m\",\"side\":\"buy\",\"shares\":1,\"price\":2}}",
    ] {
        assert_eq!(decode_text(gutted, "w"), None);
    }
}

#[test]
fn mistyped_required_field_drops_record() {
    for text in [
        "{\"type\":\"trade\",\"data\":{\"event_id\":7,\"market_id\":\"m\",\"side\":\"buy\",\"shares\":1,\"price\":2,\"timestamp\":3}}",
        "{\"type\":\"trade\",\"data\":{\"event_id\":\"e\",\"market_id\":\"m\",\"side\":\"buy\",\"shares\":\"ten\",\"price\":2,\"timestamp\":3}}",
        "{\"type\":\"trade\",\"data\":{\"event_id\":\"e\",\"market_id\":\"m\",\"side\":\"buy\",\"shares\":1,\"price\":2,\"timestamp\":3.5}}",
        "{\"type\":\"trade\",\"data\":{\"event_id\":\"e\",\"market_id\":\"m\",\"side\":7,\"shares\":1,\"price\":2,\"timestamp\":3}}",
    ] {
        assert_eq!(decode_text(text, "w"), None);
    }
}

#[test]
fn tx_hash_is_optional_and_mistype_is_tolerated() {
    let with = "{\"type\":\"trade\",\"data\":{\"event_id\":\"e\",\"market_id\":\"m\",\
                \"side\":\"buy\",\"shares\":1,\"price\":2,\"timestamp\":3,\"tx_hash\":\"0xh\"}}";
    assert_eq!(decode_text(with, "w").unwrap().tx_hash, Some("0xh".to_string()));
    let mistyped = "{\"type\":\"trade\",\"data\":{\"event_id\":\"e\",\"market_id\":\"m\",\
                    \"side\":\"buy\",\"shares\":1,\"price\":2,\"timestamp\":3,\"tx_hash\":5}}";
    assert_eq!(decode_text(mistyped, "w").unwrap().tx_hash, None);
}

#[test]
fn service_events_classify() {
    assert_eq!(
        classify_text("{\"type\":\"subscribed\"}", "w"),
        InboundEvent::Subscribed
    );
    assert_eq!(
        classify_text("{\"type\":\"error\",\"message\":\"boom\"}", "w"),
        InboundEvent::ServerError("boom".to_string())
    );
    assert_eq!(
        classify_text("{\"type\":\"error\"}", "w"),
        InboundEvent::ServerError("Unknown error".to_string())
    );
    assert_eq!(classify_text("{\"type\":\"heartbeat\"}", "w"), InboundEvent::Heartbeat);
    assert_eq!(classify_text("{\"type\":\"pong\"}", "w"), InboundEvent::Heartbeat);
    assert_eq!(
        classify_text("{\"type\":\"weird\"}", "w"),
        InboundEvent::Unknown("weird".to_string())
    );
    assert_eq!(
        classify_text("{\"type\":\"trade\"}", "w"),
        InboundEvent::Trade(None)
    );
}

#[test]
fn frame_duties() {
    assert_eq!(
        handle_frame(WsFrame::Ping(vec![1, 2, 3]), "w"),
        FrameAction::ReplyPong(vec![1, 2, 3])
    );
    assert_eq!(handle_frame(WsFrame::Pong(vec![]), "w"), FrameAction::MarkAlive);
    assert_eq!(handle_frame(WsFrame::Close, "w"), FrameAction::Terminate);
    assert_eq!(handle_frame(WsFrame::Binary(vec![9]), "w"), FrameAction::Ignore);
    let text = "{\"type\":\"trade\",\"data\":{\"event_id\":\"e\",\"market_id\":\"m\",\
                \"side\":\"buy\",\"shares\":1,\"price\":2,\"timestamp\":3}}";
    match handle_frame(WsFrame::Text(text.to_string()), "w") {
        FrameAction::Inbound(InboundEvent::Trade(Some(t))) => {
            assert_eq!(t.event_id, "e");
            assert_eq!(t.wallet, "w");
        }
        other => panic!("expected a dispatched trade, got {:?}", other),
    }
}

#[test]
fn subscribe_frame_is_exact() {
    assert_eq!(
        subscribe_message("0xAAA"),
        "{\"type\":\"subscribe\",\"channel\":\"trades\",\"wallet\":\"0xAAA\"}"
    );
}

#[test]
fn subscribe_frame_escapes_wallet_id() {
    assert_eq!(
        subscribe_message("a\"b\\c\nd"),
        "{\"type\":\"subscribe\",\"channel\":\"trades\",\"wallet\":\"a\\\"b\\\\c\\u000ad\"}"
    );
}

#[test]
fn subscribe_frame_parses_back_as_json() {
    let frame = subscribe_message("0xAAA");
    let value: serde_json::Value = serde_json::from_str(&frame).unwrap();
    assert_eq!(value["type"], serde_json::Value::String("subscribe".to_string()));
    assert_eq!(value["channel"], serde_json::Value::String("trades".to_string()));
    assert_eq!(value["wallet"], serde_json::Value::String("0xAAA".to_string()));
}

#[test]
fn big_numbers_keep_their_rendering() {
    let text = "{\"type\":\"trade\",\"data\":{\"event_id\":\"e\",\"market_id\":\"m\",\
                \"side\":\"buy\",\"shares\":18446744073709551615,\"price\":1e3,\"timestamp\":3}}";
    let trade = decode_text(text, "w").unwrap();
    assert_eq!(trade.shares, JsonNum::Other("18446744073709551615".to_string()));
    assert_eq!(num_to_f64(&trade.price), 1000.0);
}
