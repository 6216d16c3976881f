//! The broker connection and channel state model, and the pool's validity
//! decisions over it.

use vstd::prelude::*;

verus! {

/// The state of the long-lived broker connection. `Errored` is reached on a
/// heartbeat or socket failure and is sticky until teardown.
#[derive(Clone, Copy, Debug, PartialEq, Eq, Structural)]
pub enum ConnState {
    Connecting,
    Connected,
    Closing,
    Closed,
    Errored,
}

/// A connection in one of these states accepts no further work.
pub open spec fn is_broken_state(s: ConnState) -> bool {
    s == ConnState::Closing || s == ConnState::Closed || s == ConnState::Errored
}

/// Whether the connection is broken: closing, closed or errored.
pub fn is_broken_conn(s: ConnState) -> (r: bool)
    ensures
        r == is_broken_state(s),
{
    match s {
        ConnState::Closing => true,
        ConnState::Closed => true,
        ConnState::Errored => true,
        _ => false,
    }
}

/// Whether the connection is still being established.
pub fn is_connecting_conn(s: ConnState) -> (r: bool)
    ensures
        r == (s == ConnState::Connecting),
{
    match s {
        ConnState::Connecting => true,
        _ => false,
    }
}

/// Why a pooled channel is rejected on checkout.
#[derive(Clone, Copy, Debug, PartialEq, Eq)]
pub enum ChannelFault {
    /// The connection is closing, closed or errored.
    ConnectionBroken,
    /// The connection is still being established.
    ConnectionConnecting,
    /// The channel itself reports not-connected.
    ChannelNotConnected,
}

/// The pool's validity check for one channel: the connection must be fully
/// established and the channel itself connected, in that order of tests.
pub open spec fn channel_fault(conn: ConnState, channel_connected: bool) -> Option<ChannelFault> {
    if is_broken_state(conn) {
        Some(ChannelFault::ConnectionBroken)
    } else if conn == ConnState::Connecting {
        Some(ChannelFault::ConnectionConnecting)
    } else if !channel_connected {
        Some(ChannelFault::ChannelNotConnected)
    } else {
        None
    }
}

/// Decides whether a pooled channel is valid, and if not, why.
pub fn check_channel(conn: ConnState, channel_connected: bool) -> (r: Option<ChannelFault>)
    ensures
        r == channel_fault(conn, channel_connected),
{
    if is_broken_conn(conn) {
        Some(ChannelFault::ConnectionBroken)
    } else if is_connecting_conn(conn) {
        Some(ChannelFault::ConnectionConnecting)
    } else if !channel_connected {
        Some(ChannelFault::ChannelNotConnected)
    } else {
        None
    }
}

/// Whether the pool discards the channel on check-in.
pub fn has_broken(conn: ConnState, channel_connected: bool) -> (r: bool)
    ensures
        r == (channel_fault(conn, channel_connected) is Some),
{
    match check_channel(conn, channel_connected) {
        Some(_) => true,
        None => false,
    }
}

/// The transition taken when the heartbeat task fails: the connection is
/// marked errored, whatever state it was in.
pub fn on_heartbeat_failure(_s: ConnState) -> (r: ConnState)
    ensures
        r == ConnState::Errored,
        is_broken_state(r),
{
    ConnState::Errored
}

/// Once errored, the connection stays broken: no fault state is valid again.
pub proof fn lemma_errored_is_sticky(channel_connected: bool)
    ensures
        forall|f: ConnState| is_broken_state(f)
            ==> channel_fault(f, channel_connected) is Some,
{
}

} // verus!
