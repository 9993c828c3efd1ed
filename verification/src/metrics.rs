//! Resource counters reported for a running guest.
use vstd::prelude::*;

verus! {

/// Guest physical memory utilisation.
#[derive(Debug, Clone, Copy, PartialEq, Eq, Structural)]
pub struct MemoryStats {
    /// Total guest RAM in bytes.
    pub total_bytes: u64,
    /// Bytes currently resident / allocated by the guest.
    pub used_bytes: u64,
    /// Peak RSS of the VMM process in bytes.
    pub rss_bytes: u64,
}

impl Default for MemoryStats {
    fn default() -> (s: Self)
        ensures
            s == (MemoryStats { total_bytes: 0, used_bytes: 0, rss_bytes: 0 }),
    {
        MemoryStats { total_bytes: 0, used_bytes: 0, rss_bytes: 0 }
    }
}

/// Cumulative network I/O counters.
#[derive(Debug, Clone, Copy, PartialEq, Eq, Structural)]
pub struct NetworkStats {
    /// Total bytes received from the guest.
    pub rx_bytes: u64,
    /// Total bytes sent to the guest.
    pub tx_bytes: u64,
    /// Total bytes received on the host-side interface.
    pub host_rx_bytes: u64,
    /// Total bytes transmitted on the host-side interface.
    pub host_tx_bytes: u64,
    /// Number of packets dropped.
    pub dropped_packets: u64,
}

impl Default for NetworkStats {
    fn default() -> (s: Self)
        ensures
            s == (NetworkStats { rx_bytes: 0, tx_bytes: 0, host_rx_bytes: 0, host_tx_bytes: 0, dropped_packets: 0 }),
    {
        NetworkStats { rx_bytes: 0, tx_bytes: 0, host_rx_bytes: 0, host_tx_bytes: 0, dropped_packets: 0 }
    }
}

} // verus!
