use tradewatch::mempool::{
    parse_trade_data, MempoolFilter, MempoolVerdict, PendingTx, TradeInfo,
};
use tradewatch::trade::TradeSide;

fn tx(from: Vec<u8>, to: Option<Vec<u8>>, input: Vec<u8>) -> PendingTx {
    PendingTx {
        hash: vec![0xab; 32],
        from,
        to,
        gas: "21000".to_string(),
        gas_price: Some("1000000000".to_string()),
        input,
    }
}

fn payload_40_even() -> Vec<u8> {
    let mut input = vec![0x02, 0xff, 0xff, 0xff];
    for b in 0..32u8 {
        input.push(b);
    }
    input.extend_from_slice(&[0xde, 0xad, 0xbe, 0xef]);
    input
}

const WORD_HEX: &str = "0x000102030405060708090a0b0c0d0e0f101112131415161718191a1b1c1d1e1f";

#[test]
fn short_payload_never_yields_market_id() {
    assert_eq!(parse_trade_data(&[]), None);
    assert_eq!(parse_trade_data(&[0x02; 20]), None);
    assert_eq!(parse_trade_data(&[0x02; 35]), None);
    assert!(parse_trade_data(&[0x02; 36]).is_some());
}

#[test]
fn even_selector_decodes_as_buy_with_hex_market_id() {
    let info = parse_trade_data(&payload_40_even()).unwrap();
    assert_eq!(info.side, TradeSide::BUY);
    assert_eq!(info.market_id, WORD_HEX);
    assert_eq!(info.shares, 100);
}

#[test]
fn odd_selector_decodes_as_sell() {
    let mut input = payload_40_even();
    input[0] = 0x03;
    let info = parse_trade_data(&input).unwrap();
    assert_eq!(info.side, TradeSide::SELL);
    assert_eq!(info.market_id, WORD_HEX);
}

#[test]
fn untracked_sender_is_never_reported() {
    let contract = vec![0xc0; 20];
    let filter = MempoolFilter::new(vec![vec![0xaa; 20]], vec![contract.clone()]);
    let verdict = filter.assess(&tx(vec![0xbb; 20], Some(contract), payload_40_even()));
    assert_eq!(verdict, MempoolVerdict::Ignore);
}

#[test]
fn watched_sender_without_known_contract_only_logs() {
    let filter = MempoolFilter::new(vec![vec![0xaa; 20]], vec![vec![0xc0; 20]]);
    let verdict = filter.assess(&tx(vec![0xaa; 20], None, payload_40_even()));
    assert_eq!(verdict, MempoolVerdict::TrackedOnly);
    let verdict = filter.assess(&tx(vec![0xaa; 20], Some(vec![0xc1; 20]), payload_40_even()));
    assert_eq!(verdict, MempoolVerdict::TrackedOnly);
}

#[test]
fn known_contract_with_long_payload_decodes() {
    let contract = vec![0xc0; 20];
    let filter = MempoolFilter::new(vec![vec![0xaa; 20]], vec![contract.clone()]);
    let verdict = filter.assess(&tx(vec![0xaa; 20], Some(contract), payload_40_even()));
    assert_eq!(
        verdict,
        MempoolVerdict::KnownContract(Some(TradeInfo {
            side: TradeSide::BUY,
            market_id: WORD_HEX.to_string(),
            shares: 100,
        }))
    );
}

#[test]
fn known_contract_with_short_payload_skips_decode() {
    let contract = vec![0xc0; 20];
    let filter = MempoolFilter::new(vec![vec![0xaa; 20]], vec![contract.clone()]);
    let verdict = filter.assess(&tx(vec![0xaa; 20], Some(contract), vec![0x02; 20]));
    assert_eq!(verdict, MempoolVerdict::KnownContract(None));
}
