use tradewatch::retry::{MempoolRetry, RetryDecision, WalletBackoff};
use tradewatch::supervisor::{connection_step, ConnectionEvent, ConnectionState};

#[test]
fn connection_state_machine_cycles_and_only_stop_closes() {
    let s = ConnectionState::Disconnected;
    let s = connection_step(s, ConnectionEvent::Attempt);
    assert_eq!(s, ConnectionState::Connecting);
    assert_eq!(
        connection_step(s, ConnectionEvent::HandshakeFailed),
        ConnectionState::Disconnected
    );
    let s = connection_step(s, ConnectionEvent::HandshakeOk);
    assert_eq!(s, ConnectionState::Connected);
    let s = connection_step(s, ConnectionEvent::ErrorOrClose);
    assert_eq!(s, ConnectionState::Disconnected);
    // unlisted pairings leave the state alone
    assert_eq!(
        connection_step(ConnectionState::Disconnected, ConnectionEvent::ErrorOrClose),
        ConnectionState::Disconnected
    );
    // only the cancellation hook closes, and closing is final
    let s = connection_step(s, ConnectionEvent::Stop);
    assert_eq!(s, ConnectionState::Closing);
    assert_eq!(connection_step(s, ConnectionEvent::Attempt), ConnectionState::Closing);
}

#[test]
fn wallet_delays_grow_linearly_then_cap_at_thirty() {
    let mut backoff = WalletBackoff::new();
    let mut delays = Vec::new();
    for _ in 0..9 {
        delays.push(backoff.on_failure());
    }
    assert_eq!(delays, vec![5, 10, 15, 20, 25, 30, 30, 30, 30]);
}

#[test]
fn wallet_counter_resets_after_success() {
    let mut backoff = WalletBackoff::new();
    for _ in 0..4 {
        backoff.on_failure();
    }
    backoff.on_success();
    assert_eq!(backoff.failures, 0);
    assert_eq!(backoff.on_failure(), 5);
}

#[test]
fn wallet_retries_never_end() {
    let mut backoff = WalletBackoff::new();
    for _ in 0..50 {
        let delay = backoff.on_failure();
        assert!(delay >= 5 && delay <= 30);
    }
}

#[test]
fn wallet_counter_halves_at_soft_maximum() {
    let mut backoff = WalletBackoff::new();
    for _ in 0..9 {
        backoff.on_failure();
    }
    assert_eq!(backoff.failures, 9);
    let delay = backoff.on_failure();
    assert_eq!(delay, 30);
    assert_eq!(backoff.failures, 5);
}

#[test]
fn mempool_delays_are_linear_and_uncapped_until_the_attempt_cap() {
    let mut retry = MempoolRetry::new(5);
    assert_eq!(retry.on_failure(), RetryDecision::Retry(2));
    assert_eq!(retry.on_failure(), RetryDecision::Retry(4));
    assert_eq!(retry.on_failure(), RetryDecision::Retry(6));
    assert_eq!(retry.on_failure(), RetryDecision::Retry(8));
    assert_eq!(retry.on_failure(), RetryDecision::GiveUp);
}

#[test]
fn mempool_gives_up_at_cap_while_wallet_does_not() {
    let mut retry = MempoolRetry::new(20);
    let mut wallet = WalletBackoff::new();
    let mut gave_up = false;
    for _ in 0..20 {
        if retry.on_failure() == RetryDecision::GiveUp {
            gave_up = true;
        }
        let delay = wallet.on_failure();
        assert!(delay <= 30);
    }
    assert!(gave_up);
    let last = MempoolRetry::new(40).on_failure();
    assert_eq!(last, RetryDecision::Retry(2));
}

#[test]
fn mempool_delay_exceeds_wallet_cap_eventually() {
    let mut retry = MempoolRetry::new(100);
    let mut last = 0;
    for _ in 0..20 {
        if let RetryDecision::Retry(d) = retry.on_failure() {
            last = d;
        }
    }
    assert_eq!(last, 40);
}
