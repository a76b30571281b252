//! Verified core of an echo/file-I/O benchmark for asynchronous runtimes:
//! latency statistics, the benchmark's file-offset planning and the
//! decisions of its network client and echo server.

pub mod file_bench;
pub mod metrics;
pub mod network;
pub mod stats;

use vstd::prelude::*;

verus! {

/// Size in bytes of every network packet and of every file block the
/// benchmark transfers.
pub const PACKET_SIZE: usize = 512;

} // verus!
