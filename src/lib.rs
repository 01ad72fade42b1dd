//! Doorbell batching for RDMA micro-benchmarks, together with the small
//! numeric helpers that the benchmarks share.
//!
//! The doorbell rings model the hardware work-request arrays as an arena
//! with index links: every descriptor's scatter-gather reference and `next`
//! link are slot indices, and the driver-facing addresses are derived from
//! them only at the submission boundary.
use vstd::prelude::*;

pub mod align;
pub mod args;
pub mod doca;
pub mod doorbell;
pub mod recv_doorbell;
pub mod ring;
pub mod ring_proofs;
pub mod stats;
pub mod ud_id;
pub mod ud_message;

pub use align::{round_up, align_to_cacheline};

verus! {

/// Largest number of pending messages a benchmark keeps in flight.
pub const MAX_FLYING_MSG: u64 = 256;

/// Largest payload of one datagram send or receive.
pub const MAX_MSG_SZ: u64 = 4096;

/// Number of receive buffers posted in one receive batch at most.
pub const MAX_RECV_NUM: usize = 64;

/// Largest number of clients a server accepts.
pub const MAX_CLIENTS: usize = 24;

/// Shortest life of a server, in seconds.
pub const MIN_SERVER_LIFE: u32 = 30;

} // verus!
