//! The run as a whole: its sessions and the barrier they share.

use crate::barrier::Barrier;
use crate::config::Config;
use vstd::prelude::*;
use vstd::string::*;

verus! {

/// One session to set up: what [`crate::connection::Connection::new`] is
/// called with.
#[derive(Clone, Debug, PartialEq, Eq)]
pub struct Session {
    /// Index of the session within its role.
    pub id: usize,
    /// Topic that a sink collects from; `None` for an ordinary session.
    pub sink: Option<String>,
}

/// What a run consists of.
#[derive(Clone, Debug, PartialEq, Eq)]
pub struct Run {
    /// The barrier that all sessions pass before their workload.
    pub barrier: Barrier,
    /// The sessions: first the ordinary ones, then the sinks.
    pub sessions: Vec<Session>,
}

/// Whether `session` is the one that a run of `connections` ordinary
/// sessions has at `position`: the ordinary sessions come first, each session
/// is numbered from zero within its role, and every sink collects from
/// `sink_topic`.
pub open spec fn is_session_at(
    session: Session,
    position: int,
    connections: nat,
    sink_topic: Seq<char>,
) -> bool {
    if position < connections {
        &&& session.sink is None
        &&& session.id == position
    } else {
        &&& session.sink matches Some(topic) && topic@ == sink_topic
        &&& session.id == position - connections
    }
}

/// Lays out a run: one barrier for all sessions, `connections` ordinary
/// sessions and `sink` sinks that collect from `sink_topic`.
pub fn start(config: &Config, sink_topic: &str) -> (run: Run)
    requires
        config.connections + config.sink <= usize::MAX,
    ensures
        run.barrier == Barrier::initial(config.participants()),
        run.barrier.wf(),
        run.sessions.len() == config.participants(),
        forall|position: int|
            0 <= position < run.sessions.len() ==> is_session_at(
                #[trigger] run.sessions[position],
                position,
                config.connections as nat,
                sink_topic@,
            ),
{
    let barrier = Barrier::new(config.connections + config.sink);
    let mut sessions: Vec<Session> = Vec::new();
    let mut id: usize = 0;
    while id < config.connections
        invariant
            id <= config.connections,
            sessions.len() == id,
            forall|position: int|
                0 <= position < id ==> is_session_at(
                    #[trigger] sessions[position],
                    position,
                    config.connections as nat,
                    sink_topic@,
                ),
        decreases config.connections - id,
    {
        sessions.push(Session { id, sink: None });
        id = id + 1;
    }
    let mut id: usize = 0;
    while id < config.sink
        invariant
            id <= config.sink,
            config.connections + config.sink <= usize::MAX,
            sessions.len() == config.connections + id,
            forall|position: int|
                0 <= position < config.connections + id ==> is_session_at(
                    #[trigger] sessions[position],
                    position,
                    config.connections as nat,
                    sink_topic@,
                ),
        decreases config.sink - id,
    {
        sessions.push(Session { id, sink: Some(String::from_str(sink_topic)) });
        id = id + 1;
    }
    Run { barrier, sessions }
}

} // verus!
