//! Decoding inbound trade events into validated [`Trade`] records.
//!
//! A trade event carries its fields either nested under a `data` object or
//! flat at the event root; each required field is probed nested-first with a
//! flat fallback. The side token must resolve, case-insensitively, to the
//! closed set {BUY, SELL}; any missing or mistyped required field drops the
//! whole record.

use vstd::prelude::*;
use crate::json::{
    JsonNum, JsonNumV, JsonValue, json_as_i64, json_as_num, json_as_str, json_of, obj_get,
    parse_json, spec_as_i64, spec_as_num, spec_as_str, spec_get, spec_index,
};
use crate::text::{eq_ascii_case_fold, str_eq, str_eq_ascii_case_fold};

verus! {

/// Which way a trade goes.
#[allow(non_camel_case_types)]
#[derive(Clone, Copy, Debug, PartialEq, Eq, Structural)]
pub enum TradeSide {
    BUY,
    SELL,
}

/// A validated trade observed on a wallet's feed.
#[derive(Clone, Debug, PartialEq, Eq)]
pub struct Trade {
    pub wallet: String,
    pub event_id: String,
    pub market_id: String,
    pub side: TradeSide,
    pub shares: JsonNum,
    pub price: JsonNum,
    pub timestamp: i64,
    pub tx_hash: Option<String>,
}

/// The mathematical shape of a [`Trade`].
pub struct TradeV {
    pub wallet: Seq<char>,
    pub event_id: Seq<char>,
    pub market_id: Seq<char>,
    pub side: TradeSide,
    pub shares: JsonNumV,
    pub price: JsonNumV,
    pub timestamp: i64,
    pub tx_hash: Option<Seq<char>>,
}

impl View for Trade {
    type V = TradeV;

    open spec fn view(&self) -> TradeV {
        TradeV {
            wallet: self.wallet@,
            event_id: self.event_id@,
            market_id: self.market_id@,
            side: self.side,
            shares: self.shares@,
            price: self.price@,
            timestamp: self.timestamp,
            tx_hash: match self.tx_hash {
                Some(s) => Some(s@),
                None => None,
            },
        }
    }
}

/// The side a token resolves to: equal to BUY or SELL up to ASCII case, or
/// nothing.
pub open spec fn spec_side_of(s: Seq<char>) -> Option<TradeSide> {
    if eq_ascii_case_fold(s, "BUY"@) {
        Some(TradeSide::BUY)
    } else if eq_ascii_case_fold(s, "SELL"@) {
        Some(TradeSide::SELL)
    } else {
        None
    }
}

/// Resolves a side token against the closed set {BUY, SELL}, ignoring ASCII
/// case.
pub fn side_of(s: &str) -> (r: Option<TradeSide>)
    ensures
        r == spec_side_of(s@),
{
    if str_eq_ascii_case_fold(s, "BUY") {
        Some(TradeSide::BUY)
    } else if str_eq_ascii_case_fold(s, "SELL") {
        Some(TradeSide::SELL)
    } else {
        None
    }
}

/// Law: a side token resolves exactly when, up to ASCII case, it is BUY or
/// SELL; it then resolves to that side, and any other token resolves to
/// nothing.
pub proof fn lemma_side_set_closed(s: Seq<char>)
    ensures
        spec_side_of(s) == Some(TradeSide::BUY) <==> eq_ascii_case_fold(s, "BUY"@),
        spec_side_of(s) == Some(TradeSide::SELL) <==> (eq_ascii_case_fold(s, "SELL"@)
            && !eq_ascii_case_fold(s, "BUY"@)),
        spec_side_of(s) is None <==> (!eq_ascii_case_fold(s, "BUY"@) && !eq_ascii_case_fold(
            s,
            "SELL"@,
        )),
{
}

/// The decoder's field lookup: the entry nested under `data` where it is
/// present and non-null, the flat entry at the event root otherwise.
pub open spec fn spec_probe(ev: JsonValue, key: Seq<char>) -> Option<JsonValue> {
    let nested = spec_index(spec_index(ev, "data"@), key);
    if nested is Null {
        spec_get(ev, key)
    } else {
        Some(nested)
    }
}

/// Law: a present, non-null entry nested under `data` is preferred, whatever
/// stands flat at the event root.
pub proof fn lemma_nested_field_preferred(ev: JsonValue, key: Seq<char>)
    requires
        !(spec_index(spec_index(ev, "data"@), key) is Null),
    ensures
        spec_probe(ev, key) == Some(spec_index(spec_index(ev, "data"@), key)),
{
}

/// Looks a field up, nested-first with a flat fallback.
pub fn probe<'a>(ev: &'a JsonValue, key: &str) -> (r: Option<&'a JsonValue>)
    ensures
        match r {
            Some(x) => spec_probe(*ev, key@) == Some(*x),
            None => spec_probe(*ev, key@) is None,
        },
{
    let nested = match obj_get(ev, "data") {
        Some(d) => obj_get(d, key),
        None => None,
    };
    match nested {
        Some(x) => match x {
            JsonValue::Null => obj_get(ev, key),
            _ => Some(x),
        },
        None => obj_get(ev, key),
    }
}

/// A probed string field.
pub open spec fn spec_probe_str(ev: JsonValue, key: Seq<char>) -> Option<Seq<char>> {
    match spec_probe(ev, key) {
        Some(v) => spec_as_str(v),
        None => None,
    }
}

/// A probed number field.
pub open spec fn spec_probe_num(ev: JsonValue, key: Seq<char>) -> Option<JsonNumV> {
    match spec_probe(ev, key) {
        Some(v) => spec_as_num(v),
        None => None,
    }
}

/// A probed integer field.
pub open spec fn spec_probe_i64(ev: JsonValue, key: Seq<char>) -> Option<i64> {
    match spec_probe(ev, key) {
        Some(v) => spec_as_i64(v),
        None => None,
    }
}

/// What decoding a trade event yields: a record exactly when the event's
/// `type` is the string "trade", every required field probes to a value of
/// the required shape, and the side token resolves; nothing otherwise.
pub open spec fn spec_parse_trade(ev: JsonValue, wallet: Seq<char>) -> Option<TradeV> {
    match spec_as_str(spec_index(ev, "type"@)) {
        None => None,
        Some(t) => if t != "trade"@ {
            None
        } else {
            match (
                spec_probe_str(ev, "event_id"@),
                spec_probe_str(ev, "market_id"@),
                spec_probe_str(ev, "side"@),
                spec_probe_num(ev, "shares"@),
                spec_probe_num(ev, "price"@),
                spec_probe_i64(ev, "timestamp"@),
            ) {
                (
                    Some(event_id),
                    Some(market_id),
                    Some(side_s),
                    Some(shares),
                    Some(price),
                    Some(timestamp),
                ) => match spec_side_of(side_s) {
                    Some(side) => Some(
                        TradeV {
                            wallet,
                            event_id,
                            market_id,
                            side,
                            shares,
                            price,
                            timestamp,
                            tx_hash: spec_probe_str(ev, "tx_hash"@),
                        },
                    ),
                    None => None,
                },
                _ => None,
            }
        },
    }
}

/// Probes a string field.
fn probe_str<'a>(ev: &'a JsonValue, key: &str) -> (r: Option<&'a String>)
    ensures
        match r {
            Some(s) => spec_probe_str(*ev, key@) == Some(s@),
            None => spec_probe_str(*ev, key@) is None,
        },
{
    match probe(ev, key) {
        Some(v) => json_as_str(v),
        None => None,
    }
}

/// Probes a number field.
fn probe_num(ev: &JsonValue, key: &str) -> (r: Option<JsonNum>)
    ensures
        match r {
            Some(n) => spec_probe_num(*ev, key@) == Some(n@),
            None => spec_probe_num(*ev, key@) is None,
        },
{
    match probe(ev, key) {
        Some(v) => json_as_num(v),
        None => None,
    }
}

/// Probes an integer field.
fn probe_i64(ev: &JsonValue, key: &str) -> (r: Option<i64>)
    ensures
        r == spec_probe_i64(*ev, key@),
{
    match probe(ev, key) {
        Some(v) => json_as_i64(v),
        None => None,
    }
}

/// Decodes one parsed trade event into a validated record for the given
/// wallet, or nothing where any required field is missing, mistyped, or the
/// side token does not resolve.
pub fn parse_trade_event(event: &JsonValue, wallet: &str) -> (r: Option<Trade>)
    ensures
        match r {
            Some(t) => spec_parse_trade(*event, wallet@) == Some(t@),
            None => spec_parse_trade(*event, wallet@) is None,
        },
{
    let type_ok = match obj_get(event, "type") {
        Some(v) => match json_as_str(v) {
            Some(t) => str_eq(t.as_str(), "trade"),
            None => false,
        },
        None => false,
    };
    if !type_ok {
        return None;
    }
    let event_id = match probe_str(event, "event_id") {
        Some(s) => s.clone(),
        None => {
            return None;
        },
    };
    let market_id = match probe_str(event, "market_id") {
        Some(s) => s.clone(),
        None => {
            return None;
        },
    };
    let side_s = match probe_str(event, "side") {
        Some(s) => s,
        None => {
            return None;
        },
    };
    let shares = match probe_num(event, "shares") {
        Some(n) => n,
        None => {
            return None;
        },
    };
    let price = match probe_num(event, "price") {
        Some(n) => n,
        None => {
            return None;
        },
    };
    let timestamp = match probe_i64(event, "timestamp") {
        Some(n) => n,
        None => {
            return None;
        },
    };
    let tx_hash = match probe_str(event, "tx_hash") {
        Some(s) => Some(s.clone()),
        None => None,
    };
    let side = match side_of(side_s.as_str()) {
        Some(s) => s,
        None => {
            return None;
        },
    };
    Some(
        Trade {
            wallet: wallet.to_owned(),
            event_id,
            market_id,
            side,
            shares,
            price,
            timestamp,
            tx_hash,
        },
    )
}

/// What decoding a raw text yields: the record of its trade event, or
/// nothing where the text is malformed or the event does not decode.
pub open spec fn spec_decode(doc: Option<JsonValue>, wallet: Seq<char>) -> Option<TradeV> {
    match doc {
        None => None,
        Some(ev) => spec_parse_trade(ev, wallet),
    }
}

/// Law: malformed text yields no record. Decoding is total: no error is
/// raised toward the caller.
pub proof fn lemma_malformed_yields_nothing(text: Seq<char>, wallet: Seq<char>)
    requires
        json_of(text) is None,
    ensures
        spec_decode(json_of(text), wallet) is None,
{
}

/// Decodes one raw feed text into a validated record for the given wallet.
/// Malformed text and undecodable events yield nothing, never an error.
pub fn decode_text(text: &str, wallet: &str) -> (r: Option<Trade>)
    ensures
        match r {
            Some(t) => spec_decode(json_of(text@), wallet@) == Some(t@),
            None => spec_decode(json_of(text@), wallet@) is None,
        },
{
    match parse_json(text) {
        Some(ev) => parse_trade_event(&ev, wallet),
        None => None,
    }
}

} // verus!
