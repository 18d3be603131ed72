//! What a session hands to its protocol engine to reach the broker.

use crate::config::Config;
use crate::connection::REQUEST_CAPACITY;
use crate::tls::TlsMaterial;
use crate::topic::{make_session_id, session_id};
use vstd::prelude::*;

verus! {

/// Settings of the connection of one session.
#[derive(Clone, Debug, PartialEq, Eq)]
pub struct Options {
    /// Name under which the session connects.
    pub client_id: String,
    /// Broker host.
    pub server: String,
    /// Broker port.
    pub port: u16,
    /// Keep-alive interval in seconds.
    pub keep_alive: u16,
    /// Most messages that may await acknowledgement at once.
    pub max_inflight: u16,
    /// Seconds to wait for the broker to accept the connection.
    pub conn_timeout: u64,
    /// Capacity of the request channel.
    pub request_capacity: usize,
    /// Certificates and keys, if the connection uses TLS.
    pub tls: TlsMaterial,
}

impl Options {
    /// The settings for the session with the given index and role: it
    /// connects under its own name, everything else is as the run has it.
    pub fn new(id: usize, sink: bool, config: &Config, tls: TlsMaterial) -> (options: Options)
        ensures
            options.client_id@ == session_id(id as nat, sink),
            options.server@ == config.server@,
            options.port == config.port,
            options.keep_alive == config.keep_alive,
            options.max_inflight == config.max_inflight,
            options.conn_timeout == config.conn_timeout,
            options.request_capacity == REQUEST_CAPACITY,
            options.tls == tls,
    {
        Options {
            client_id: make_session_id(id, sink),
            server: config.server.clone(),
            port: config.port,
            keep_alive: config.keep_alive,
            max_inflight: config.max_inflight,
            conn_timeout: config.conn_timeout,
            request_capacity: REQUEST_CAPACITY,
            tls,
        }
    }
}

} // verus!
