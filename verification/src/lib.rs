//! A notification dispatcher: deliveries from a durable broker are routed
//! by queue name, decoded from their canonical JSON wire form, sent to an
//! egress under a bounded exponential retry schedule, dead-lettered on
//! exhaustion, and settled with exactly one acknowledgement each. The
//! decisions live here, verified; the I/O shell around them performs the
//! network work.

pub mod codec;
pub mod config;
pub mod conn;
pub mod dispatch;
pub mod errors;
pub mod http;
pub mod json;
pub mod json_relaxed;
pub mod models;
pub mod push_codec;
pub mod rabbit_url;
pub mod sign;
pub mod supervisor;
pub mod topology;

use vstd::prelude::*;

verus! {

/// Milliseconds to wait before nacking a delivery whose handling failed.
pub const DELAY_BEFORE_NACK: u64 = 1000;

/// Milliseconds to wait before rebuilding the subscription after a teardown.
pub const DELAY_BEFORE_RECONNECT: u64 = 1000;

/// Maximum unacked deliveries the broker pushes to one consumer channel.
pub const CONSUMER_PREFETCH_COUNT: u16 = 10;

} // verus!
