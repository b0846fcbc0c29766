//! Filtering pending transactions and heuristically decoding their payload.
//!
//! A resolved pending transaction is assessed against two configuration
//! sets: only a watched `from` is worth anything at all, and only a known
//! contract as `to` warrants a decode attempt. The decode itself is a
//! deliberate placeholder heuristic, not real calldata decoding: the side
//! comes from the parity of the selector's first byte, the market id is the
//! hex of the first argument word, and the share count is a constant.

use vstd::prelude::*;
use crate::text::hex_digit;
use crate::trade::TradeSide;

verus! {

/// The least payload length a decode needs: a four-byte selector and one
/// thirty-two-byte argument word.
pub const MIN_TRADE_PAYLOAD: usize = 36;

/// The placeholder share count of a decoded payload.
pub const PLACEHOLDER_SHARES: u64 = 100;

/// The lowercase hexadecimal rendering of a byte string, high nibble first.
pub open spec fn spec_hex(b: Seq<u8>) -> Seq<char> {
    Seq::new(
        b.len() * 2,
        |i: int|
            if i % 2 == 0 {
                hex_digit((b[i / 2] / 16) as u8)
            } else {
                hex_digit((b[i / 2] % 16) as u8)
            },
    )
}

/// Relies on `hex::encode`: renders each byte as two lowercase hexadecimal
/// digits, high nibble first.
#[verifier::external_body]
fn hex_encode(b: &[u8]) -> (r: String)
    ensures
        r@ == spec_hex(b@),
{
    hex::encode(b)
}

/// What a heuristic decode found in a pending transaction's payload.
#[derive(Clone, Debug, PartialEq, Eq)]
pub struct TradeInfo {
    pub side: TradeSide,
    pub market_id: String,
    /// A constant placeholder: the payload is not really decoded this far.
    pub shares: u64,
}

/// The mathematical shape of a [`TradeInfo`].
pub struct TradeInfoV {
    pub side: TradeSide,
    pub market_id: Seq<char>,
    pub shares: u64,
}

impl View for TradeInfo {
    type V = TradeInfoV;

    open spec fn view(&self) -> TradeInfoV {
        TradeInfoV { side: self.side, market_id: self.market_id@, shares: self.shares }
    }
}

/// What the heuristic decode yields: nothing for a payload shorter than
/// thirty-six bytes; otherwise the side by the parity of the selector's
/// first byte (even is BUY, odd is SELL), the market id as `0x` followed by
/// the hex of bytes four to thirty-six, and the placeholder share count.
pub open spec fn spec_parse_trade_data(data: Seq<u8>) -> Option<TradeInfoV> {
    if data.len() < MIN_TRADE_PAYLOAD {
        None
    } else {
        Some(
            TradeInfoV {
                side: if data[0] % 2 == 0 {
                    TradeSide::BUY
                } else {
                    TradeSide::SELL
                },
                market_id: "0x"@ + spec_hex(data.subrange(4, 36)),
                shares: PLACEHOLDER_SHARES,
            },
        )
    }
}

/// Law: a payload shorter than thirty-six bytes never yields a decoded
/// market id.
pub proof fn lemma_short_payload_never_decodes(data: Seq<u8>)
    requires
        data.len() < MIN_TRADE_PAYLOAD,
    ensures
        spec_parse_trade_data(data) is None,
{
}

/// Heuristically decodes a pending transaction's payload.
pub fn parse_trade_data(data: &[u8]) -> (r: Option<TradeInfo>)
    ensures
        match r {
            Some(info) => spec_parse_trade_data(data@) == Some(info@),
            None => spec_parse_trade_data(data@) is None,
        },
{
    if data.len() < MIN_TRADE_PAYLOAD {
        return None;
    }
    let side = if data[0] % 2 == 0 {
        TradeSide::BUY
    } else {
        TradeSide::SELL
    };
    let word = vstd::slice::slice_subrange(data, 4, 36);
    let market_id = String::from_str("0x").concat(hex_encode(word).as_str());
    Some(TradeInfo { side, market_id, shares: PLACEHOLDER_SHARES })
}

/// Whether a byte string stands in a set of addresses.
pub open spec fn spec_contains_addr(set: Seq<Vec<u8>>, a: Seq<u8>) -> bool {
    exists|i: int| 0 <= i < set.len() && set[i]@ == a
}

fn bytes_eq(a: &Vec<u8>, b: &Vec<u8>) -> (r: bool)
    ensures
        r == (a@ == b@),
{
    if a.len() != b.len() {
        return false;
    }
    let mut i: usize = 0;
    while i < a.len()
        invariant
            a@.len() == b@.len(),
            i <= a@.len(),
            forall|j: int| 0 <= j < i ==> a@[j] == b@[j],
        decreases a@.len() - i,
    {
        if a[i] != b[i] {
            return false;
        }
        i += 1;
    }
    proof {
        assert(a@ =~= b@);
    }
    true
}

/// Tests membership in a set of addresses.
pub fn contains_addr(set: &Vec<Vec<u8>>, a: &Vec<u8>) -> (r: bool)
    ensures
        r == spec_contains_addr(set@, a@),
{
    let mut i: usize = 0;
    while i < set.len()
        invariant
            i <= set@.len(),
            forall|j: int| 0 <= j < i ==> set@[j]@ != a@,
        decreases set@.len() - i,
    {
        if bytes_eq(&set[i], a) {
            return true;
        }
        i += 1;
    }
    false
}

/// One resolved pending transaction, as the feed hands it over: raw
/// addresses and payload bytes, gas figures by their decimal rendering.
/// Ephemeral; discarded after the filter step.
#[derive(Clone, Debug, PartialEq, Eq)]
pub struct PendingTx {
    pub hash: Vec<u8>,
    pub from: Vec<u8>,
    pub to: Option<Vec<u8>>,
    pub gas: String,
    pub gas_price: Option<String>,
    pub input: Vec<u8>,
}

/// The immutable, configuration-derived address sets the filter reads.
#[derive(Clone, Debug, PartialEq, Eq)]
pub struct MempoolFilter {
    /// Wallets whose pending transactions are worth reporting.
    pub watched: Vec<Vec<u8>>,
    /// Contracts whose calls warrant a decode attempt.
    pub contracts: Vec<Vec<u8>>,
}

/// What to do with one resolved pending transaction.
#[derive(Clone, Debug, PartialEq, Eq)]
pub enum MempoolVerdict {
    /// The sender is untracked: nothing is reported.
    Ignore,
    /// The sender is watched, but the callee is no known contract: report
    /// the transaction, attempt no decode.
    TrackedOnly,
    /// The sender is watched and the callee is a known contract: report the
    /// transaction along with what the payload decoded to, if anything.
    KnownContract(Option<TradeInfo>),
}

/// The mathematical shape of a [`MempoolVerdict`].
pub enum MempoolVerdictV {
    Ignore,
    TrackedOnly,
    KnownContract(Option<TradeInfoV>),
}

impl View for MempoolVerdict {
    type V = MempoolVerdictV;

    open spec fn view(&self) -> MempoolVerdictV {
        match self {
            MempoolVerdict::Ignore => MempoolVerdictV::Ignore,
            MempoolVerdict::TrackedOnly => MempoolVerdictV::TrackedOnly,
            MempoolVerdict::KnownContract(info) => MempoolVerdictV::KnownContract(
                match info {
                    Some(info) => Some(info@),
                    None => None,
                },
            ),
        }
    }
}

/// What assessing a pending transaction yields.
pub open spec fn spec_assess(f: MempoolFilter, tx: PendingTx) -> MempoolVerdictV {
    if !spec_contains_addr(f.watched@, tx.from@) {
        MempoolVerdictV::Ignore
    } else {
        match tx.to {
            Some(to) => if spec_contains_addr(f.contracts@, to@) {
                MempoolVerdictV::KnownContract(spec_parse_trade_data(tx.input@))
            } else {
                MempoolVerdictV::TrackedOnly
            },
            None => MempoolVerdictV::TrackedOnly,
        }
    }
}

/// Law: a transaction whose sender is untracked is never reported, whatever
/// its callee or payload.
pub proof fn lemma_untracked_never_reported(f: MempoolFilter, tx: PendingTx)
    requires
        !spec_contains_addr(f.watched@, tx.from@),
    ensures
        spec_assess(f, tx) is Ignore,
{
}

impl MempoolFilter {
    /// Builds the filter from the configured address sets.
    pub fn new(watched: Vec<Vec<u8>>, contracts: Vec<Vec<u8>>) -> (r: MempoolFilter)
        ensures
            r.watched == watched,
            r.contracts == contracts,
    {
        MempoolFilter { watched, contracts }
    }

    /// Assesses one resolved pending transaction.
    pub fn assess(&self, tx: &PendingTx) -> (r: MempoolVerdict)
        ensures
            r@ == spec_assess(*self, *tx),
    {
        if !contains_addr(&self.watched, &tx.from) {
            return MempoolVerdict::Ignore;
        }
        match &tx.to {
            Some(to) => if contains_addr(&self.contracts, to) {
                MempoolVerdict::KnownContract(parse_trade_data(tx.input.as_slice()))
            } else {
                MempoolVerdict::TrackedOnly
            },
            None => MempoolVerdict::TrackedOnly,
        }
    }
}

} // verus!
