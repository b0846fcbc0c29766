//! Classifying inbound frames and texts, and the resulting protocol duties.
//!
//! The read loop of a connection hands every inbound frame to
//! [`handle_frame`]: text frames are parsed and classified, protocol pings
//! are answered with a pong echoing the same payload bytes, pongs mark the
//! connection alive, a close frame terminates the loop, and binary frames
//! are ignored. Connection errors never surface past the supervisor.

use vstd::prelude::*;
use crate::json::{JsonValue, json_as_str, json_of, obj_get, parse_json, spec_as_str, spec_index};
use crate::trade::{Trade, TradeV, parse_trade_event, spec_decode, spec_parse_trade};
use crate::text::str_eq;

verus! {

/// What an inbound text frame turned out to carry.
#[derive(Clone, Debug, PartialEq, Eq)]
pub enum InboundEvent {
    /// Malformed text, or an event without a string `type`: dropped.
    Ignored,
    /// A trade event, with its record where it decoded.
    Trade(Option<Trade>),
    /// The acknowledgement of a subscription.
    Subscribed,
    /// A server-reported error, with its message.
    ServerError(String),
    /// An application-level liveness message.
    Heartbeat,
    /// An event of an unrecognized type, with the type's token.
    Unknown(String),
}

/// The mathematical shape of an [`InboundEvent`].
pub enum InboundEventV {
    Ignored,
    Trade(Option<TradeV>),
    Subscribed,
    ServerError(Seq<char>),
    Heartbeat,
    Unknown(Seq<char>),
}

impl View for InboundEvent {
    type V = InboundEventV;

    open spec fn view(&self) -> InboundEventV {
        match self {
            InboundEvent::Ignored => InboundEventV::Ignored,
            InboundEvent::Trade(t) => InboundEventV::Trade(
                match t {
                    Some(t) => Some(t@),
                    None => None,
                },
            ),
            InboundEvent::Subscribed => InboundEventV::Subscribed,
            InboundEvent::ServerError(m) => InboundEventV::ServerError(m@),
            InboundEvent::Heartbeat => InboundEventV::Heartbeat,
            InboundEvent::Unknown(t) => InboundEventV::Unknown(t@),
        }
    }
}

/// What classifying a parsed text yields: trade events carry their decoded
/// record, the recognized service types are told apart, anything else is
/// either unknown (a string `type` with an unrecognized token) or ignored.
pub open spec fn spec_classify(doc: Option<JsonValue>, wallet: Seq<char>) -> InboundEventV {
    match doc {
        None => InboundEventV::Ignored,
        Some(ev) => match spec_as_str(spec_index(ev, "type"@)) {
            None => InboundEventV::Ignored,
            Some(t) => if t == "trade"@ {
                InboundEventV::Trade(spec_parse_trade(ev, wallet))
            } else if t == "subscribed"@ {
                InboundEventV::Subscribed
            } else if t == "error"@ {
                InboundEventV::ServerError(
                    match spec_as_str(spec_index(ev, "message"@)) {
                        Some(m) => m,
                        None => "Unknown error"@,
                    },
                )
            } else if t == "heartbeat"@ || t == "pong"@ {
                InboundEventV::Heartbeat
            } else {
                InboundEventV::Unknown(t)
            },
        },
    }
}

/// Law: the record a classified trade event carries is exactly what decoding
/// the same document yields; any other classification carries no record.
pub proof fn lemma_classify_agrees_with_decode(doc: Option<JsonValue>, wallet: Seq<char>)
    ensures
        match spec_classify(doc, wallet) {
            InboundEventV::Trade(t) => t == spec_decode(doc, wallet),
            _ => spec_decode(doc, wallet) is None,
        },
{
}

/// Classifies one inbound text for the given wallet. Malformed text is
/// ignored; no error is raised toward the caller.
pub fn classify_text(text: &str, wallet: &str) -> (r: InboundEvent)
    ensures
        r@ == spec_classify(json_of(text@), wallet@),
{
    let ev = match parse_json(text) {
        Some(ev) => ev,
        None => {
            return InboundEvent::Ignored;
        },
    };
    let t = match obj_get(&ev, "type") {
        Some(v) => match json_as_str(v) {
            Some(t) => t.clone(),
            None => {
                return InboundEvent::Ignored;
            },
        },
        None => {
            return InboundEvent::Ignored;
        },
    };
    if str_eq(t.as_str(), "trade") {
        InboundEvent::Trade(parse_trade_event(&ev, wallet))
    } else if str_eq(t.as_str(), "subscribed") {
        InboundEvent::Subscribed
    } else if str_eq(t.as_str(), "error") {
        let msg = match obj_get(&ev, "message") {
            Some(v) => match json_as_str(v) {
                Some(m) => m.clone(),
                None => String::from_str("Unknown error"),
            },
            None => String::from_str("Unknown error"),
        };
        InboundEvent::ServerError(msg)
    } else if str_eq(t.as_str(), "heartbeat") || str_eq(t.as_str(), "pong") {
        InboundEvent::Heartbeat
    } else {
        InboundEvent::Unknown(t)
    }
}

/// One inbound frame, as the transport hands it over.
#[derive(Clone, Debug, PartialEq, Eq)]
pub enum WsFrame {
    Text(String),
    Binary(Vec<u8>),
    Ping(Vec<u8>),
    Pong(Vec<u8>),
    Close,
}

/// What the read loop must do with one inbound frame.
#[derive(Clone, Debug, PartialEq, Eq)]
pub enum FrameAction {
    /// Act on a classified text event: dispatch its trade record, or log.
    Inbound(InboundEvent),
    /// Answer a protocol ping with a pong echoing the same payload bytes.
    ReplyPong(Vec<u8>),
    /// A pong arrived: the connection is alive.
    MarkAlive,
    /// The peer closed the connection: leave the read loop.
    Terminate,
    /// Binary data: ignored.
    Ignore,
}

/// Decides the read loop's duty for one inbound frame: text is classified,
/// a ping is answered by a pong echoing the same payload bytes, a pong marks
/// the connection alive, a close terminates the loop, binary is ignored.
pub fn handle_frame(frame: WsFrame, wallet: &str) -> (r: FrameAction)
    ensures
        match frame {
            WsFrame::Text(text) => (r matches FrameAction::Inbound(e) && e@ == spec_classify(
                json_of(text@),
                wallet@,
            )),
            WsFrame::Ping(d) => (r matches FrameAction::ReplyPong(p) && p@ == d@),
            WsFrame::Pong(_) => r is MarkAlive,
            WsFrame::Close => r is Terminate,
            WsFrame::Binary(_) => r is Ignore,
        },
{
    match frame {
        WsFrame::Text(text) => FrameAction::Inbound(classify_text(text.as_str(), wallet)),
        WsFrame::Ping(d) => FrameAction::ReplyPong(d),
        WsFrame::Pong(_) => FrameAction::MarkAlive,
        WsFrame::Close => FrameAction::Terminate,
        WsFrame::Binary(_) => FrameAction::Ignore,
    }
}

} // verus!
