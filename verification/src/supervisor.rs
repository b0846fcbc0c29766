//! The connection supervisor's state machine.
//!
//! One supervisor owns one connection's state; states are never shared
//! across wallets. The machine cycles Disconnected, Connecting, Connected
//! and back on error or close — retries never terminate it. Closing is
//! reached only through the cancellation hook, and is final.

use vstd::prelude::*;

verus! {

/// The bounded setup time of one connection attempt, in seconds.
pub const CONNECT_TIMEOUT_SECS: u64 = 30;

/// The liveness prober's interval between protocol pings, in seconds.
pub const PING_INTERVAL_SECS: u64 = 30;

/// The lifecycle state of one supervised connection.
#[derive(Clone, Copy, Debug, PartialEq, Eq, Structural)]
pub enum ConnectionState {
    Disconnected,
    Connecting,
    Connected,
    Closing,
}

/// What happens to one supervised connection.
#[derive(Clone, Copy, Debug, PartialEq, Eq, Structural)]
pub enum ConnectionEvent {
    /// A connection attempt begins.
    Attempt,
    /// The handshake completed within its bounded setup time.
    HandshakeOk,
    /// The handshake failed or timed out.
    HandshakeFailed,
    /// The read loop ended: an error, a close frame, or a dispatch failure.
    ErrorOrClose,
    /// The external cancellation hook fired.
    Stop,
}

/// The supervisor's transition function: attempts connect, a completed
/// handshake connects, any error or close disconnects again, a stop closes
/// for good; any other pairing leaves the state alone.
pub open spec fn spec_connection_step(s: ConnectionState, e: ConnectionEvent) -> ConnectionState {
    match (s, e) {
        (_, ConnectionEvent::Stop) => ConnectionState::Closing,
        (ConnectionState::Disconnected, ConnectionEvent::Attempt) => ConnectionState::Connecting,
        (ConnectionState::Connecting, ConnectionEvent::HandshakeOk) => ConnectionState::Connected,
        (ConnectionState::Connecting, ConnectionEvent::HandshakeFailed) => ConnectionState::Disconnected,
        (ConnectionState::Connected, ConnectionEvent::ErrorOrClose) => ConnectionState::Disconnected,
        (s, _) => s,
    }
}

/// Steps one supervised connection's state.
pub fn connection_step(s: ConnectionState, e: ConnectionEvent) -> (r: ConnectionState)
    ensures
        r == spec_connection_step(s, e),
{
    match (s, e) {
        (_, ConnectionEvent::Stop) => ConnectionState::Closing,
        (ConnectionState::Disconnected, ConnectionEvent::Attempt) => ConnectionState::Connecting,
        (ConnectionState::Connecting, ConnectionEvent::HandshakeOk) => ConnectionState::Connected,
        (ConnectionState::Connecting, ConnectionEvent::HandshakeFailed) => ConnectionState::Disconnected,
        (ConnectionState::Connected, ConnectionEvent::ErrorOrClose) => ConnectionState::Disconnected,
        (other, _) => other,
    }
}

/// Law: Connected is entered only by a completed handshake out of
/// Connecting; nothing connects out of thin air.
pub proof fn lemma_connected_only_through_handshake(s: ConnectionState, e: ConnectionEvent)
    requires
        spec_connection_step(s, e) is Connected,
    ensures
        s is Connected || (s is Connecting && e is HandshakeOk),
{
}

/// Law: Closing is final, and is reached only by the cancellation hook —
/// no failure terminates the supervisor on its own.
pub proof fn lemma_only_stop_closes(s: ConnectionState, e: ConnectionEvent)
    ensures
        spec_connection_step(s, e) is Closing <==> (s is Closing || e is Stop),
        s is Closing ==> spec_connection_step(s, e) is Closing,
{
}

} // verus!
