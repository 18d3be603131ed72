//! Accounting of one session's workload phase: what it expects, what it has
//! counted so far, and when it is done.

use crate::event::{InboundEvent, Polled};
use vstd::prelude::*;

verus! {

/// Connection failures after which a session gives up.
pub const MAX_RECONNECTS: u32 = 1;

/// Publish acknowledgements that a session waits for: one per message of
/// each of its workers. A sink publishes nothing.
pub open spec fn acks_expected(sink: bool, count: nat, publishers: nat) -> nat {
    if sink {
        0
    } else {
        count * publishers
    }
}

/// Messages that a session waits for. An ordinary session receives what one
/// session publishes once per subscription; a sink receives what every
/// ordinary session publishes.
pub open spec fn incoming_expected(
    sink: bool,
    count: nat,
    publishers: nat,
    subscribers: nat,
    connections: nat,
) -> nat {
    if sink {
        count * publishers * connections
    } else {
        count * publishers * subscribers
    }
}

/// Whether to poll the engine again.
#[derive(Clone, Copy, Debug, PartialEq, Eq, Structural)]
pub enum Step {
    /// The workload goes on.
    Continue,
    /// The workload is over; the report can be made.
    Stop,
}

/// Counters and latches of one session's workload phase.
#[derive(Clone, Copy, Debug, PartialEq, Eq, Structural)]
pub struct Workload {
    /// The run has nothing to publish; the session only answers pings.
    pub idle: bool,
    /// Publish acknowledgements to wait for.
    pub acks_expected: usize,
    /// Inbound messages to wait for.
    pub incoming_expected: usize,
    /// Publish acknowledgements seen.
    pub acks: usize,
    /// Inbound messages seen.
    pub incoming: usize,
    /// Connection failures seen.
    pub reconnects: u32,
    /// All expected acknowledgements have arrived.
    pub outgoing_done: bool,
    /// All expected messages have arrived.
    pub incoming_done: bool,
    /// Milliseconds into the workload at which `outgoing_done` was set.
    pub outgoing_elapsed: u128,
    /// Milliseconds into the workload at which `incoming_done` was set.
    pub incoming_elapsed: u128,
    /// The workload is over.
    pub stopped: bool,
}

/// Packets that a running workload accepts; any other ends it.
pub open spec fn expected_in_workload(event: InboundEvent) -> bool {
    event is PubAck || event is Publish || event is PingResp
}

impl Workload {
    /// The state before the first poll.
    pub open spec fn initial(idle: bool, acks_expected: nat, incoming_expected: nat) -> Workload {
        Workload {
            idle,
            acks_expected: acks_expected as usize,
            incoming_expected: incoming_expected as usize,
            acks: 0,
            incoming: 0,
            reconnects: 0,
            outgoing_done: false,
            incoming_done: false,
            outgoing_elapsed: 0,
            incoming_elapsed: 0,
            stopped: false,
        }
    }

    /// What every state reached from an initial one satisfies.
    pub open spec fn wf(&self) -> bool {
        &&& self.reconnects <= MAX_RECONNECTS
        &&& !self.stopped ==> self.reconnects == 0
        &&& self.outgoing_done ==> self.acks >= self.acks_expected
        &&& self.incoming_done ==> self.incoming >= self.incoming_expected
        &&& !self.outgoing_done ==> self.outgoing_elapsed == 0
        &&& !self.incoming_done ==> self.incoming_elapsed == 0
        &&& self.idle ==> self.acks == 0 && self.incoming == 0 && !self.outgoing_done
            && !self.incoming_done
    }

    /// The counter that `polled` adds to has room for one more.
    pub open spec fn has_room(&self, polled: Polled) -> bool {
        &&& polled == Polled::Inbound(InboundEvent::PubAck) ==> self.acks < usize::MAX
        &&& polled == Polled::Inbound(InboundEvent::Publish) ==> self.incoming < usize::MAX
    }

    /// The state with `polled` counted.
    pub open spec fn counted(self, polled: Polled) -> Workload {
        match polled {
            Polled::Inbound(InboundEvent::PubAck) => Workload {
                acks: (self.acks + 1) as usize,
                ..self
            },
            Polled::Inbound(InboundEvent::Publish) => Workload {
                incoming: (self.incoming + 1) as usize,
                ..self
            },
            _ => self,
        }
    }

    /// The state with each latch set that is due `elapsed_ms` milliseconds
    /// into the workload. A latch that is set stays as it is.
    pub open spec fn latched(self, elapsed_ms: u128) -> Workload {
        let outgoing = !self.outgoing_done && self.acks >= self.acks_expected;
        let incoming = !self.incoming_done && self.incoming >= self.incoming_expected;
        Workload {
            outgoing_done: self.outgoing_done || outgoing,
            outgoing_elapsed: if outgoing {
                elapsed_ms
            } else {
                self.outgoing_elapsed
            },
            incoming_done: self.incoming_done || incoming,
            incoming_elapsed: if incoming {
                elapsed_ms
            } else {
                self.incoming_elapsed
            },
            ..self
        }
    }

    /// The state after one poll that returned `polled`, `elapsed_ms`
    /// milliseconds into the workload.
    ///
    /// A failure of the connection is counted and ends the workload once
    /// `MAX_RECONNECTS` of them have been seen. An idle session ignores
    /// everything else. A packet that has no place in the workload ends it.
    /// Otherwise the packet is counted, the latches that are due are set, and
    /// the workload ends when both are.
    pub open spec fn next(self, polled: Polled, elapsed_ms: u128) -> Workload {
        if self.stopped {
            self
        } else if polled is Failed {
            Workload {
                reconnects: (self.reconnects + 1) as u32,
                stopped: self.reconnects + 1 == MAX_RECONNECTS,
                ..self
            }
        } else if self.idle {
            self
        } else if polled matches Polled::Inbound(event) && !expected_in_workload(event) {
            Workload { stopped: true, ..self }
        } else {
            let after = self.counted(polled).latched(elapsed_ms);
            Workload { stopped: after.outgoing_done && after.incoming_done, ..after }
        }
    }

    /// The state after the polls of `polls`, in their order; each comes with
    /// the milliseconds into the workload at which it returned.
    pub open spec fn run(self, polls: Seq<(Polled, u128)>) -> Workload
        decreases polls.len(),
    {
        if polls.len() == 0 {
            self
        } else {
            self.run(polls.drop_last()).next(polls.last().0, polls.last().1)
        }
    }

    /// What the caller does in the state `self`.
    pub open spec fn step(&self) -> Step {
        if self.stopped {
            Step::Stop
        } else {
            Step::Continue
        }
    }

    /// A workload that waits for `acks_expected` acknowledgements and
    /// `incoming_expected` messages, or for nothing if `idle`.
    pub fn new(idle: bool, acks_expected: usize, incoming_expected: usize) -> (workload: Workload)
        ensures
            workload == Workload::initial(idle, acks_expected as nat, incoming_expected as nat),
            workload.wf(),
    {
        Workload {
            idle,
            acks_expected,
            incoming_expected,
            acks: 0,
            incoming: 0,
            reconnects: 0,
            outgoing_done: false,
            incoming_done: false,
            outgoing_elapsed: 0,
            incoming_elapsed: 0,
            stopped: false,
        }
    }

    /// Tests whether the state is one that an initial state can lead to.
    pub fn check(&self) -> (ok: bool)
        ensures
            ok == self.wf(),
    {
        let reconnects = self.reconnects <= MAX_RECONNECTS && (self.stopped || self.reconnects
            == 0);
        let outgoing = if self.outgoing_done {
            self.acks >= self.acks_expected
        } else {
            self.outgoing_elapsed == 0
        };
        let incoming = if self.incoming_done {
            self.incoming >= self.incoming_expected
        } else {
            self.incoming_elapsed == 0
        };
        let idle = !self.idle || (self.acks == 0 && self.incoming == 0 && !self.outgoing_done
            && !self.incoming_done);
        reconnects && outgoing && incoming && idle
    }

    /// Takes in the outcome of one poll, made `elapsed_ms` milliseconds after
    /// the workload began, and says whether to poll again.
    pub fn on_poll(&mut self, polled: Polled, elapsed_ms: u128) -> (step: Step)
        requires
            old(self).wf(),
            old(self).has_room(polled),
        ensures
            *final(self) == old(self).next(polled, elapsed_ms),
            final(self).wf(),
            step == final(self).step(),
    {
        if self.stopped {
            return Step::Stop;
        }
        let event = match polled {
            Polled::Failed => {
                self.reconnects = self.reconnects + 1;
                if self.reconnects == MAX_RECONNECTS {
                    self.stopped = true;
                    return Step::Stop;
                }
                return Step::Continue;
            },
            Polled::Quiet => None,
            Polled::Inbound(event) => Some(event),
        };
        if self.idle {
            return Step::Continue;
        }
        match event {
            Some(InboundEvent::PubAck) => {
                self.acks = self.acks + 1;
            },
            Some(InboundEvent::Publish) => {
                self.incoming = self.incoming + 1;
            },
            Some(InboundEvent::PingResp) | None => {},
            Some(_) => {
                self.stopped = true;
                return Step::Stop;
            },
        }
        if !self.outgoing_done && self.acks >= self.acks_expected {
            self.outgoing_elapsed = elapsed_ms;
            self.outgoing_done = true;
        }
        if !self.incoming_done && self.incoming >= self.incoming_expected {
            self.incoming_elapsed = elapsed_ms;
            self.incoming_done = true;
        }
        if self.outgoing_done && self.incoming_done {
            self.stopped = true;
            return Step::Stop;
        }
        Step::Continue
    }
}

/// Messages per second, rounded down: `count` messages in `elapsed_ms`
/// milliseconds. There is no figure while no time has passed.
pub open spec fn throughput_of(count: usize, elapsed_ms: u128) -> Option<u128> {
    if elapsed_ms == 0 {
        None
    } else {
        Some((count * 1000 / (elapsed_ms as int)) as u128)
    }
}

/// Computes the throughput of `count` messages in `elapsed_ms` milliseconds.
pub fn throughput(count: usize, elapsed_ms: u128) -> (rate: Option<u128>)
    ensures
        rate == throughput_of(count, elapsed_ms),
{
    if elapsed_ms == 0 {
        None
    } else {
        let scaled: u128 = count as u128 * 1000;
        Some(scaled / elapsed_ms)
    }
}

/// Packets of kind `event` among `polls`.
pub open spec fn arrivals(polls: Seq<(Polled, u128)>, event: InboundEvent) -> nat
    decreases polls.len(),
{
    if polls.len() == 0 {
        0
    } else {
        arrivals(polls.drop_last(), event) + if polls.last().0 == Polled::Inbound(event) {
            1nat
        } else {
            0nat
        }
    }
}

/// Outcomes of a poll that a running workload takes in its stride.
pub open spec fn accepted_in_workload(polled: Polled) -> bool {
    match polled {
        Polled::Inbound(event) => expected_in_workload(event),
        Polled::Quiet => true,
        Polled::Failed => false,
    }
}

/// The expected totals in the order of their factors that is usual when
/// speaking of a run: `p` publishers with `c` messages each make `p * c`
/// acknowledgements for an ordinary session and none for a sink, and a sink
/// in a run of `n` ordinary sessions expects `n * p * c` messages.
pub proof fn lemma_expected_totals(n: nat, p: nat, c: nat, s: nat)
    ensures
        acks_expected(false, c, p) == p * c,
        acks_expected(true, c, p) == 0,
        incoming_expected(true, c, p, s, n) == n * p * c,
        incoming_expected(false, c, p, s, n) == p * c * s,
{
    assert(c * p == p * c) by (nonlinear_arith);
    assert(c * p * n == n * p * c) by (nonlinear_arith);
}

/// A sink expects what all ordinary sessions of the run publish together:
/// `n` sessions with `p * c` messages each.
pub proof fn lemma_sink_expects_all_published(n: nat, p: nat, c: nat, s: nat)
    ensures
        incoming_expected(true, c, p, s, n) == n * acks_expected(false, c, p),
{
    assert(c * p * n == n * (c * p)) by (nonlinear_arith);
}

/// A step keeps a well-formed state well-formed.
pub proof fn lemma_next_keeps_wf(workload: Workload, polled: Polled, elapsed_ms: u128)
    requires
        workload.wf(),
        workload.has_room(polled),
    ensures
        workload.next(polled, elapsed_ms).wf(),
{
}

/// An idle session never sets a latch, whatever the polls return: its
/// counters stay at zero, and so does the time that a throughput figure
/// would divide by, so that no figure is computed. As long as the
/// connection does not fail it does not stop either.
pub proof fn lemma_idle_never_latches(workload: Workload, polls: Seq<(Polled, u128)>)
    requires
        workload.wf(),
        workload.idle,
    ensures
        workload.run(polls).wf(),
        workload.run(polls).idle,
        !workload.run(polls).outgoing_done,
        !workload.run(polls).incoming_done,
        throughput_of(workload.run(polls).acks, workload.run(polls).outgoing_elapsed) is None,
        throughput_of(workload.run(polls).incoming, workload.run(polls).incoming_elapsed) is None,
        (forall|i: int| 0 <= i < polls.len() ==> !((#[trigger] polls[i]).0 is Failed))
            ==> workload.run(polls) == workload,
    decreases polls.len(),
{
    if polls.len() > 0 {
        let before = polls.drop_last();
        lemma_idle_never_latches(workload, before);
        if forall|i: int| 0 <= i < polls.len() ==> !((#[trigger] polls[i]).0 is Failed) {
            assert forall|i: int| 0 <= i < before.len() implies !((#[trigger] before[i]).0
                is Failed) by {
                assert(before[i] == polls[i]);
            }
            assert(!(polls[polls.len() - 1].0 is Failed));
        }
    }
}

/// A session with something to do stops on reaching its expected counts, and
/// not before: while every poll returns nothing or a packet that the
/// workload accepts, each latch is set from the first poll on after which
/// its count is reached, the session has stopped exactly when both are set,
/// and a counter whose latch is not set yet holds every arrival of its kind.
/// This holds of any number of polls.
pub proof fn lemma_stops_on_expected_counts(
    acks_expected: usize,
    incoming_expected: usize,
    polls: Seq<(Polled, u128)>,
)
    requires
        forall|i: int| 0 <= i < polls.len() ==> accepted_in_workload((#[trigger] polls[i]).0),
    ensures
        ({
            let end = Workload::initial(false, acks_expected as nat, incoming_expected as nat).run(
                polls,
            );
            let acks = arrivals(polls, InboundEvent::PubAck);
            let incoming = arrivals(polls, InboundEvent::Publish);
            &&& !end.idle
            &&& end.acks_expected == acks_expected
            &&& end.incoming_expected == incoming_expected
            &&& end.reconnects == 0
            &&& end.outgoing_done <==> polls.len() > 0 && acks >= acks_expected
            &&& end.incoming_done <==> polls.len() > 0 && incoming >= incoming_expected
            &&& end.stopped <==> end.outgoing_done && end.incoming_done
            &&& !end.outgoing_done ==> end.acks == acks
            &&& !end.incoming_done ==> end.incoming == incoming
        }),
    decreases polls.len(),
{
    if polls.len() > 0 {
        let before = polls.drop_last();
        assert forall|i: int| 0 <= i < before.len() implies accepted_in_workload(
            (#[trigger] before[i]).0,
        ) by {
            assert(before[i] == polls[i]);
        }
        lemma_stops_on_expected_counts(acks_expected, incoming_expected, before);
        assert(accepted_in_workload(polls[polls.len() - 1].0));
    }
}

/// As long as the counters have room, a session with something to do counts
/// every acknowledgement and every message until it stops: while every poll
/// returns nothing or a packet that the workload accepts, the state stays
/// well-formed, no counter is ahead of the arrivals of its kind, and the
/// counters of a session that has not stopped hold them all.
pub proof fn lemma_counts_every_arrival(
    acks_expected: usize,
    incoming_expected: usize,
    polls: Seq<(Polled, u128)>,
)
    requires
        forall|i: int| 0 <= i < polls.len() ==> accepted_in_workload((#[trigger] polls[i]).0),
        arrivals(polls, InboundEvent::PubAck) <= usize::MAX,
        arrivals(polls, InboundEvent::Publish) <= usize::MAX,
    ensures
        ({
            let end = Workload::initial(false, acks_expected as nat, incoming_expected as nat).run(
                polls,
            );
            let acks = arrivals(polls, InboundEvent::PubAck);
            let incoming = arrivals(polls, InboundEvent::Publish);
            &&& end.wf()
            &&& end.acks <= acks
            &&& end.incoming <= incoming
            &&& !end.stopped ==> end.acks == acks && end.incoming == incoming
        }),
    decreases polls.len(),
{
    if polls.len() > 0 {
        let before = polls.drop_last();
        assert forall|i: int| 0 <= i < before.len() implies accepted_in_workload(
            (#[trigger] before[i]).0,
        ) by {
            assert(before[i] == polls[i]);
        }
        lemma_counts_every_arrival(acks_expected, incoming_expected, before);
        lemma_stops_on_expected_counts(acks_expected, incoming_expected, before);
        assert(accepted_in_workload(polls[polls.len() - 1].0));
    }
}

} // verus!
