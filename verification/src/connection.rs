//! One session: its identity, its role, and the plan of its two phases.

use crate::barrier::Barrier;
use crate::config::Config;
use crate::event::{InboundEvent, Polled};
use crate::handshake::{
    lemma_ready_only_after_all_acks, sub_acks, subscriber_count, Handshake, Progress,
};
use crate::publisher::{requests, Publisher};
use crate::qos::{get_qos, qos_of, QoS};
use crate::topic::{make_publish_topic, make_session_id, publish_topic, session_id};
use crate::workload::{acks_expected, incoming_expected, throughput, throughput_of, Workload};
use vstd::prelude::*;

verus! {

/// Capacity of the request channel between a session and its engine.
pub const REQUEST_CAPACITY: usize = 10;

/// Why a session could not be set up.
#[derive(Clone, Copy, Debug, PartialEq, Eq, Structural)]
pub enum ConnectionError {
    /// A certificate or key file could not be read.
    Io,
    /// The engine reported a connection-level failure.
    Connection,
    /// A packet arrived that has no place in the subscribe phase.
    WrongPacket(InboundEvent),
}

/// One session of a run whose subscriptions the broker has acknowledged. A
/// session with a `sink` topic is a sink: it collects from that topic and
/// publishes nothing.
#[derive(Clone, Debug)]
pub struct Connection<'a> {
    /// Name of the session.
    pub id: String,
    /// Settings of the run.
    pub config: &'a Config,
    /// Topic that a sink collects from; `None` for an ordinary session.
    pub sink: Option<String>,
}

/// What a session reports when its workload is over.
#[derive(Clone, Debug, PartialEq, Eq)]
pub struct Report {
    /// Name of the session.
    pub id: String,
    /// Publish acknowledgements received.
    pub acks: usize,
    /// Acknowledged messages per second: `acks` over the time at which the
    /// last expected acknowledgement arrived. There is no figure where that
    /// time is zero: the expected ones never all arrived, or they had
    /// arrived before a millisecond had passed.
    pub outgoing_throughput: Option<u128>,
    /// Messages received.
    pub incoming: usize,
    /// Received messages per second: `incoming` over the time at which the
    /// last expected message arrived. There is no figure where that time is
    /// zero: the expected ones never all arrived, or they had arrived before
    /// a millisecond had passed.
    pub incoming_throughput: Option<u128>,
    /// Connection failures seen.
    pub reconnects: u32,
}

/// Total of what the given workers have still to hand out.
pub open spec fn total_to_send(workers: Seq<Publisher>) -> nat
    decreases workers.len(),
{
    if workers.len() == 0 {
        0
    } else {
        total_to_send(workers.drop_last()) + workers.last().to_send()
    }
}

impl<'a> Connection<'a> {
    /// Whether the session is a sink.
    pub open spec fn is_sink(&self) -> bool {
        self.sink is Some
    }

    /// Delivery guarantee of everything the session asks for.
    pub open spec fn qos(&self) -> QoS {
        qos_of(self.config.qos as int)
    }

    /// Publish workers of the session: none for a sink.
    pub open spec fn worker_count(&self) -> nat {
        if self.is_sink() {
            0
        } else {
            self.config.publishers as nat
        }
    }

    /// Whether `worker` is the fresh publish worker with the given index.
    pub open spec fn is_worker(&self, worker: Publisher, index: int) -> bool {
        &&& worker.topic@ == publish_topic(self.id@, index as nat)
        &&& worker.payload_size == self.config.payload_size
        &&& worker.count == self.config.count
        &&& worker.qos == self.qos()
        &&& worker.delay == self.config.delay
        &&& worker.sent == 0
        &&& !worker.closed
    }

    /// The workload tracker that the session starts with.
    pub open spec fn workload(&self) -> Workload {
        Workload::initial(
            self.config.idle(),
            acks_expected(self.is_sink(), self.config.count as nat, self.config.publishers as nat),
            incoming_expected(
                self.is_sink(),
                self.config.count as nat,
                self.config.publishers as nat,
                self.config.subscribers as nat,
                self.config.connections as nat,
            ),
        )
    }

    /// Sets up the session with the given index once its subscribe phase is
    /// over: with a `sink` topic it is a sink, without one an ordinary
    /// session. The session is there if `handshake` ended with every
    /// subscription acknowledged; if it ended with an error, that error is
    /// handed on.
    pub fn new(
        id: usize,
        sink: Option<String>,
        config: &'a Config,
        handshake: &Handshake,
    ) -> (connection: Result<Connection<'a>, ConnectionError>)
        requires
            handshake.wf(),
            handshake.expected == subscriber_count(sink, config),
            !(handshake.progress is Pending),
        ensures
            connection is Ok <==> handshake.progress is Ready,
            connection is Ok ==> handshake.acks >= subscriber_count(sink, config),
            connection is Ok && subscriber_count(sink, config) >= 1 ==> handshake.acks
                == subscriber_count(sink, config),
            connection matches Err(error) ==> handshake.progress == Progress::Failed(error),
            connection matches Ok(session) ==> {
                &&& session.id@ == session_id(id as nat, sink is Some)
                &&& session.sink == sink
                &&& session.config == config
            },
    {
        match handshake.progress {
            Progress::Failed(error) => Err(error),
            _ => {
                let id = make_session_id(id, sink.is_some());
                Ok(Connection { id, config, sink })
            },
        }
    }

    /// Begins the workload phase: gives the tracker of the phase and the
    /// publish workers to run beside it. There is nothing to begin, and so
    /// nothing to publish, before the barrier has opened.
    pub fn start(&self, barrier: &Barrier) -> (plan: Option<(Workload, Vec<Publisher>)>)
        requires
            self.config.in_range(),
        ensures
            plan is Some <==> barrier.released(),
            plan matches Some((workload, workers)) ==> {
                &&& workload == self.workload()
                &&& workload.wf()
                &&& workload.acks_expected == acks_expected(
                    self.is_sink(),
                    self.config.count as nat,
                    self.config.publishers as nat,
                )
                &&& workload.incoming_expected == incoming_expected(
                    self.is_sink(),
                    self.config.count as nat,
                    self.config.publishers as nat,
                    self.config.subscribers as nat,
                    self.config.connections as nat,
                )
                &&& workers.len() == self.worker_count()
                &&& forall|i: int| 0 <= i < workers.len() ==> self.is_worker(#[trigger] workers[i], i)
                &&& total_to_send(workers@) == acks_expected(
                    self.is_sink(),
                    self.config.count as nat,
                    self.config.publishers as nat,
                )
            },
    {
        if !barrier.is_released() {
            return None;
        }
        let idle = self.config.is_idle();
        let published = self.config.count * self.config.publishers;
        let mut workers: Vec<Publisher> = Vec::new();
        if self.sink.is_some() {
            let incoming = published * self.config.connections;
            return Some((Workload::new(idle, 0, incoming), workers));
        }
        let incoming = published * self.config.subscribers;
        let qos = get_qos(self.config.qos);
        let mut index: usize = 0;
        while index < self.config.publishers
            invariant
                self.sink is None,
                qos == self.qos(),
                index <= self.config.publishers,
                workers.len() == index,
                forall|i: int| 0 <= i < index ==> self.is_worker(#[trigger] workers[i], i),
                total_to_send(workers@) == self.config.count * index,
            decreases self.config.publishers - index,
        {
            let topic = make_publish_topic(self.id.as_str(), index);
            let worker = requests(
                topic,
                self.config.payload_size,
                self.config.count,
                qos,
                self.config.delay,
            );
            let ghost before = workers@;
            workers.push(worker);
            proof {
                assert(workers@.drop_last() =~= before);
                assert(self.config.count * (index + 1) == self.config.count * index
                    + self.config.count) by (nonlinear_arith);
            }
            index = index + 1;
        }
        Some((Workload::new(idle, published, incoming), workers))
    }

    /// The report of the session, given the tracker of its workload.
    pub fn report(&self, workload: &Workload) -> (report: Report)
        ensures
            report.id@ == self.id@,
            report.acks == workload.acks,
            report.outgoing_throughput == throughput_of(workload.acks, workload.outgoing_elapsed),
            report.incoming == workload.incoming,
            report.incoming_throughput == throughput_of(
                workload.incoming,
                workload.incoming_elapsed,
            ),
            report.reconnects == workload.reconnects,
    {
        Report {
            id: self.id.clone(),
            acks: workload.acks,
            outgoing_throughput: throughput(workload.acks, workload.outgoing_elapsed),
            incoming: workload.incoming,
            incoming_throughput: throughput(workload.incoming, workload.incoming_elapsed),
            reconnects: workload.reconnects,
        }
    }
}

/// A session is set up only after the broker has acknowledged each of its
/// subscriptions: one for a sink, `subscribers` for an ordinary session.
/// Whatever the polls of the subscribe phase return, the phase is `Ready`,
/// and so the session can be set up, only if at least that many subscription
/// acknowledgements were among them.
pub proof fn lemma_set_up_after_every_subscription(
    sink: Option<String>,
    config: &Config,
    polls: Seq<Polled>,
)
    ensures
        subscriber_count(sink, config) == if sink is Some {
            1
        } else {
            config.subscribers as nat
        },
        Handshake::initial(subscriber_count(sink, config)).run(polls).wf(),
        Handshake::initial(subscriber_count(sink, config)).run(polls).expected == subscriber_count(
            sink,
            config,
        ),
        Handshake::initial(subscriber_count(sink, config)).run(polls).progress is Ready
            ==> sub_acks(polls) >= subscriber_count(sink, config),
{
    lemma_ready_only_after_all_acks(subscriber_count(sink, config) as usize, polls);
}

} // verus!
