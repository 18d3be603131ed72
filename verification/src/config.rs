//! Settings of one run, shared read-only by all its sessions.

use vstd::prelude::*;

verus! {

/// Settings of one run. Built once, never changed afterwards.
#[derive(Clone, Debug)]
pub struct Config {
    /// Broker host.
    pub server: String,
    /// Broker port.
    pub port: u16,
    /// File holding the certificate authority, if TLS is wanted.
    pub ca_file: Option<String>,
    /// File holding the client certificate, if the client authenticates.
    pub client_cert: Option<String>,
    /// File holding the client key; needed whenever `client_cert` is set.
    pub client_key: Option<String>,
    /// Number of ordinary sessions.
    pub connections: usize,
    /// Number of sink sessions.
    pub sink: usize,
    /// Publish workers per ordinary session.
    pub publishers: usize,
    /// Subscriptions per ordinary session.
    pub subscribers: usize,
    /// Messages that each publish worker sends.
    pub count: usize,
    /// Bytes in each message.
    pub payload_size: usize,
    /// Delivery guarantee as a number, see [`crate::qos::get_qos`].
    pub qos: i16,
    /// Keep-alive interval in seconds.
    pub keep_alive: u16,
    /// Most messages that may await acknowledgement at once.
    pub max_inflight: u16,
    /// Seconds to wait for the broker to accept a connection.
    pub conn_timeout: u64,
    /// Seconds between two messages of one worker; `0` sends unthrottled.
    pub delay: u64,
}

/// Messages that one ordinary session publishes: each of its workers sends
/// `count` of them.
pub open spec fn published_per_session(count: nat, publishers: nat) -> nat {
    count * publishers
}

impl Config {
    /// Number of sessions that take part in the run, of both roles.
    pub open spec fn participants(&self) -> nat {
        (self.connections + self.sink) as nat
    }

    /// A run with no publisher or no message only keeps its connections
    /// alive.
    pub open spec fn idle(&self) -> bool {
        self.publishers == 0 || self.count == 0
    }

    /// The totals that the sessions of this run count towards fit the
    /// machine's word.
    pub open spec fn in_range(&self) -> bool {
        &&& self.connections + self.sink <= usize::MAX
        &&& published_per_session(self.count as nat, self.publishers as nat) <= usize::MAX
        &&& published_per_session(self.count as nat, self.publishers as nat) * self.subscribers
            <= usize::MAX
        &&& published_per_session(self.count as nat, self.publishers as nat) * self.connections
            <= usize::MAX
    }

    /// Tests whether the totals of this run fit the machine's word.
    pub fn check_range(&self) -> (ok: bool)
        ensures
            ok == self.in_range(),
    {
        if self.connections.checked_add(self.sink).is_none() {
            return false;
        }
        match self.count.checked_mul(self.publishers) {
            None => false,
            Some(published) => published.checked_mul(self.subscribers).is_some()
                && published.checked_mul(self.connections).is_some(),
        }
    }

    /// Whether the run only keeps its connections alive.
    pub fn is_idle(&self) -> (idle: bool)
        ensures
            idle == self.idle(),
    {
        self.publishers == 0 || self.count == 0
    }
}

} // verus!
