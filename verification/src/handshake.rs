//! The subscribe phase of a session: it lasts until the broker has
//! acknowledged every subscription.

use crate::config::Config;
use crate::connection::ConnectionError;
use crate::event::{InboundEvent, Polled};
use crate::qos::{get_qos, qos_of};
use crate::request::{subscribe, Request, RequestView};
use crate::topic::{make_subscribe_topic, subscribe_topic};
use vstd::prelude::*;

verus! {

/// Subscriptions of a session: one for a sink, whatever the settings say,
/// and `subscribers` for an ordinary session. A session is a sink if it has
/// a `sink` topic.
pub open spec fn subscriber_count(sink: Option<String>, config: &Config) -> nat {
    if sink is Some {
        1
    } else {
        config.subscribers as nat
    }
}

/// The subscription in the given slot: a sink subscribes to its own topic,
/// an ordinary session to one topic for each slot.
pub open spec fn subscription(sink: Option<String>, config: &Config, slot: int) -> RequestView {
    RequestView::Subscribe {
        topic: match sink {
            Some(topic) => topic@,
            None => subscribe_topic(slot as nat),
        },
        qos: qos_of(config.qos as int),
    }
}

/// The subscribe requests of a session, in the order in which they are
/// submitted.
pub fn subscriptions(sink: &Option<String>, config: &Config) -> (subscriptions: Vec<Request>)
    ensures
        subscriptions.len() == subscriber_count(*sink, config),
        forall|slot: int|
            0 <= slot < subscriptions.len() ==> (#[trigger] subscriptions[slot])@ == subscription(
                *sink,
                config,
                slot,
            ),
{
    let qos = get_qos(config.qos);
    let mut subscriptions: Vec<Request> = Vec::new();
    match sink {
        Some(topic) => {
            subscriptions.push(subscribe(topic.clone(), qos));
        },
        None => {
            let mut slot: usize = 0;
            while slot < config.subscribers
                invariant
                    *sink is None,
                    qos == qos_of(config.qos as int),
                    slot <= config.subscribers,
                    subscriptions.len() == slot,
                    forall|i: int|
                        0 <= i < slot ==> (#[trigger] subscriptions[i])@ == subscription(
                            *sink,
                            config,
                            i,
                        ),
                decreases config.subscribers - slot,
            {
                subscriptions.push(subscribe(make_subscribe_topic(slot), qos));
                slot = slot + 1;
            }
        },
    }
    subscriptions
}

/// Where the subscribe phase stands.
#[derive(Clone, Copy, Debug, PartialEq, Eq, Structural)]
pub enum Progress {
    /// Acknowledgements are still missing.
    Pending,
    /// Every subscription is acknowledged; the session is set up.
    Ready,
    /// The session could not be set up.
    Failed(ConnectionError),
}

/// Tracker of the subscribe phase.
#[derive(Clone, Copy, Debug, PartialEq, Eq, Structural)]
pub struct Handshake {
    /// Subscription acknowledgements to wait for.
    pub expected: usize,
    /// Subscription acknowledgements seen.
    pub acks: usize,
    /// Where the phase stands.
    pub progress: Progress,
}

/// Packets that may arrive while a session subscribes.
pub open spec fn expected_in_handshake(event: InboundEvent) -> bool {
    event is ConnAck || event is SubAck
}

impl Handshake {
    /// The state before the first poll.
    pub open spec fn initial(expected: nat) -> Handshake {
        Handshake { expected: expected as usize, acks: 0, progress: Progress::Pending }
    }

    /// What every state reached from an initial one satisfies.
    pub open spec fn wf(&self) -> bool {
        &&& self.progress is Pending ==> self.acks < self.expected || self.acks == 0
        &&& self.progress is Ready ==> self.acks == self.expected || (self.expected == 0
            && self.acks == 1)
    }

    /// The state after one poll that returned `polled`.
    ///
    /// A failure of the connection and a packet other than a connection or
    /// subscription acknowledgement end the phase with an error. Otherwise a
    /// subscription acknowledgement is counted, and the phase is over once as
    /// many have been counted as are expected. A phase that is over stays as
    /// it is.
    pub open spec fn next(self, polled: Polled) -> Handshake {
        if !(self.progress is Pending) {
            self
        } else {
            match polled {
                Polled::Failed => Handshake {
                    progress: Progress::Failed(ConnectionError::Connection),
                    ..self
                },
                Polled::Inbound(event) if !expected_in_handshake(event) => Handshake {
                    progress: Progress::Failed(ConnectionError::WrongPacket(event)),
                    ..self
                },
                _ => {
                    let acks = if polled == Polled::Inbound(InboundEvent::SubAck) {
                        self.acks + 1
                    } else {
                        self.acks as int
                    };
                    Handshake {
                        acks: acks as usize,
                        progress: if acks >= self.expected {
                            Progress::Ready
                        } else {
                            Progress::Pending
                        },
                        ..self
                    }
                },
            }
        }
    }

    /// The state after the polls of `polls`, in their order.
    pub open spec fn run(self, polls: Seq<Polled>) -> Handshake
        decreases polls.len(),
    {
        if polls.len() == 0 {
            self
        } else {
            self.run(polls.drop_last()).next(polls.last())
        }
    }

    /// A subscribe phase that waits for `expected` acknowledgements.
    pub fn new(expected: usize) -> (handshake: Handshake)
        ensures
            handshake == Handshake::initial(expected as nat),
            handshake.wf(),
    {
        Handshake { expected, acks: 0, progress: Progress::Pending }
    }

    /// The subscribe phase of a session: it waits for one acknowledgement
    /// for each subscription.
    pub fn begin(sink: &Option<String>, config: &Config) -> (handshake: Handshake)
        ensures
            handshake == Handshake::initial(subscriber_count(*sink, config)),
            handshake.wf(),
    {
        let expected = if sink.is_some() {
            1
        } else {
            config.subscribers
        };
        Handshake::new(expected)
    }

    /// Tests whether the state is one that an initial state can lead to.
    pub fn check(&self) -> (ok: bool)
        ensures
            ok == self.wf(),
    {
        match self.progress {
            Progress::Pending => self.acks < self.expected || self.acks == 0,
            Progress::Ready => self.acks == self.expected || (self.expected == 0 && self.acks
                == 1),
            Progress::Failed(_) => true,
        }
    }

    /// Takes in the outcome of one poll and says where the phase stands.
    pub fn on_poll(&mut self, polled: Polled) -> (progress: Progress)
        requires
            old(self).wf(),
        ensures
            *final(self) == old(self).next(polled),
            final(self).wf(),
            progress == final(self).progress,
    {
        match self.progress {
            Progress::Pending => {},
            _ => {
                return self.progress;
            },
        }
        match polled {
            Polled::Failed => {
                self.progress = Progress::Failed(ConnectionError::Connection);
            },
            Polled::Inbound(InboundEvent::SubAck) => {
                self.acks = self.acks + 1;
            },
            Polled::Inbound(InboundEvent::ConnAck) | Polled::Quiet => {},
            Polled::Inbound(event) => {
                self.progress = Progress::Failed(ConnectionError::WrongPacket(event));
            },
        }
        match self.progress {
            Progress::Pending => {
                if self.acks >= self.expected {
                    self.progress = Progress::Ready;
                }
            },
            _ => {},
        }
        self.progress
    }
}

/// Subscription acknowledgements among `polls`.
pub open spec fn sub_acks(polls: Seq<Polled>) -> nat
    decreases polls.len(),
{
    if polls.len() == 0 {
        0
    } else {
        sub_acks(polls.drop_last()) + if polls.last() == Polled::Inbound(InboundEvent::SubAck) {
            1nat
        } else {
            0nat
        }
    }
}

/// Outcomes of a poll that do not end the subscribe phase with an error.
pub open spec fn accepted_in_handshake(polled: Polled) -> bool {
    match polled {
        Polled::Inbound(event) => expected_in_handshake(event),
        Polled::Quiet => true,
        Polled::Failed => false,
    }
}

/// A session is set up only after as many subscription acknowledgements have
/// been observed as it has subscriptions: whatever the polls return, the
/// phase counts no acknowledgement that did not arrive, and it is `Ready`
/// only if at least `expected` of them arrived. A phase that waits for at
/// least one has then counted exactly `expected`.
pub proof fn lemma_ready_only_after_all_acks(expected: usize, polls: Seq<Polled>)
    ensures
        Handshake::initial(expected as nat).run(polls).wf(),
        Handshake::initial(expected as nat).run(polls).expected == expected,
        Handshake::initial(expected as nat).run(polls).acks <= sub_acks(polls),
        Handshake::initial(expected as nat).run(polls).progress is Ready ==> polls.len() > 0
            && sub_acks(polls) >= expected,
        Handshake::initial(expected as nat).run(polls).progress is Ready && expected >= 1
            ==> Handshake::initial(expected as nat).run(polls).acks == expected,
    decreases polls.len(),
{
    if polls.len() > 0 {
        lemma_ready_only_after_all_acks(expected, polls.drop_last());
    }
}

/// While every poll returns nothing, a connection acknowledgement or a
/// subscription acknowledgement, the phase does not fail, it counts every
/// subscription acknowledgement until it is over, and it is `Ready` exactly
/// from the first poll on after which `expected` of them have arrived.
pub proof fn lemma_ready_when_all_acks_arrived(expected: usize, polls: Seq<Polled>)
    requires
        forall|i: int| 0 <= i < polls.len() ==> accepted_in_handshake(#[trigger] polls[i]),
    ensures
        !(Handshake::initial(expected as nat).run(polls).progress is Failed),
        Handshake::initial(expected as nat).run(polls).progress is Ready <==> polls.len() > 0
            && sub_acks(polls) >= expected,
        Handshake::initial(expected as nat).run(polls).progress is Pending
            ==> Handshake::initial(expected as nat).run(polls).acks == sub_acks(polls),
    decreases polls.len(),
{
    if polls.len() > 0 {
        let before = polls.drop_last();
        assert forall|i: int| 0 <= i < before.len() implies accepted_in_handshake(
            #[trigger] before[i],
        ) by {
            assert(before[i] == polls[i]);
        }
        lemma_ready_when_all_acks_arrived(expected, before);
        lemma_ready_only_after_all_acks(expected, before);
        assert(accepted_in_handshake(polls[polls.len() - 1]));
    }
}

} // verus!
