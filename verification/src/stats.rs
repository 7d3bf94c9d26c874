//! Statistics about a connection.

use vstd::prelude::*;

verus! {

/// Statistics about the connection.
#[derive(Clone, Copy)]
pub struct Stats {
    /// The number of QUIC packets received on this connection.
    pub recv: usize,
    /// The number of QUIC packets sent on this connection.
    pub sent: usize,
    /// The number of QUIC packets that were lost.
    pub lost: usize,
    /// The estimated round-trip time of the connection.
    pub rtt: std::time::Duration,
    /// The size in bytes of the connection's congestion window.
    pub cwnd: usize,
}

} // verus!
