//! What a session learns from one poll of its protocol engine.

use vstd::prelude::*;

verus! {

/// Kind of a packet that the broker sent. A session tells five kinds apart;
/// every other packet is `Other`.
#[derive(Clone, Copy, Debug, PartialEq, Eq, Structural)]
pub enum InboundEvent {
    /// The broker accepted the connection.
    ConnAck,
    /// The broker acknowledged a subscription.
    SubAck,
    /// The broker acknowledged a published message.
    PubAck,
    /// A message published to a subscribed topic.
    Publish,
    /// Answer to a keep-alive ping.
    PingResp,
    /// Any other packet.
    Other,
}

/// Outcome of one poll of the engine.
#[derive(Clone, Copy, Debug, PartialEq, Eq, Structural)]
pub enum Polled {
    /// The engine handed over a packet from the broker.
    Inbound(InboundEvent),
    /// The engine made progress without anything inbound.
    Quiet,
    /// The engine reported a connection-level failure.
    Failed,
}

} // verus!
