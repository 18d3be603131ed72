//! Orchestration core of an MQTT load generator.
//!
//! A run opens many sessions against one broker. Every session subscribes,
//! waits at a barrier until all sessions have subscribed, then publishes and
//! counts what comes back, and reports its throughput when it has seen what
//! it expects.
//!
//! The crate holds the decisions of such a run and leaves the network to its
//! caller, who owns the protocol engine and tells the trackers here what
//! each poll of the engine returned:
//!
//! * [`bench::start`] lays out the sessions of a run and their barrier;
//! * [`tls::tls_material`] and [`options::Options`] say how a session
//!   reaches the broker;
//! * [`handshake::subscriptions`] and [`handshake::Handshake`] cover the
//!   subscribe phase of one session, and [`Connection::new`] sets the session
//!   up when that phase is over;
//! * [`barrier::Barrier`] counts the sessions that are ready;
//! * [`Connection::start`] plans the workload of a session,
//!   [`publisher::Publisher`] hands out its messages and
//!   [`workload::Workload`] counts acknowledgements and messages until the
//!   session is done;
//! * [`Connection::report`] sums the session up.

pub mod barrier;
pub mod bench;
pub mod config;
pub mod connection;
pub mod event;
pub mod handshake;
pub mod options;
pub mod publisher;
pub mod qos;
pub mod request;
pub mod text;
pub mod tls;
pub mod topic;
pub mod workload;

pub use config::Config;
pub use connection::{Connection, ConnectionError};
