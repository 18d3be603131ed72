//! One publish worker: it submits a fixed number of messages to one topic.

use crate::qos::QoS;
use crate::request::{publish, zeros, Request, RequestView};
use vstd::prelude::*;

verus! {

/// State of one publish worker.
#[derive(Clone, Debug, PartialEq, Eq)]
pub struct Publisher {
    /// Topic that every message goes to.
    pub topic: String,
    /// Bytes in each message.
    pub payload_size: usize,
    /// Messages to submit.
    pub count: usize,
    /// Delivery guarantee of each message.
    pub qos: QoS,
    /// Seconds between two messages; `0` sends unthrottled.
    pub delay: u64,
    /// Messages handed out so far.
    pub sent: usize,
    /// The request channel has refused a message.
    pub closed: bool,
}

impl Publisher {
    /// Messages that the worker hands out from now on, if the request
    /// channel takes them all.
    pub open spec fn to_send(&self) -> nat {
        if self.closed || self.sent >= self.count {
            0
        } else {
            (self.count - self.sent) as nat
        }
    }

    /// The message that the worker submits, again and again.
    pub open spec fn message(&self) -> RequestView {
        RequestView::Publish {
            topic: self.topic@,
            qos: self.qos,
            payload: zeros(self.payload_size as nat),
        }
    }

    /// The worker with one more message handed out.
    pub open spec fn advanced(self) -> Publisher {
        Publisher { sent: (self.sent + 1) as usize, ..self }
    }

    /// The worker after `handed` messages were handed out.
    pub open spec fn after(self, handed: nat) -> Publisher
        decreases handed,
    {
        if handed == 0 {
            self
        } else {
            self.after((handed - 1) as nat).advanced()
        }
    }

    /// The worker after the request channel has refused a message.
    pub open spec fn stopped(self) -> Publisher {
        Publisher { closed: true, ..self }
    }

    /// Seconds to wait before each message, if the worker is paced.
    pub fn pacing(&self) -> (seconds: Option<u64>)
        ensures
            seconds == if self.delay == 0 {
                None
            } else {
                Some(self.delay)
            },
    {
        if self.delay == 0 {
            None
        } else {
            Some(self.delay)
        }
    }

    /// Hands out the next message to submit, or `None` when the worker is
    /// done: all messages are out, or the channel is closed.
    pub fn next_request(&mut self) -> (request: Option<Request>)
        ensures
            request is Some <==> old(self).to_send() > 0,
            request matches Some(r) ==> r@ == old(self).message(),
            request is Some ==> *final(self) == old(self).advanced(),
            request is None ==> *final(self) == *old(self),
            final(self).to_send() == if request is Some {
                old(self).to_send() - 1
            } else {
                0
            },
    {
        if self.closed || self.sent >= self.count {
            None
        } else {
            self.sent = self.sent + 1;
            Some(publish(self.topic.clone(), self.qos, self.payload_size))
        }
    }

    /// Records that the request channel refused a message: the engine is
    /// gone, and the worker stops.
    pub fn channel_closed(&mut self)
        ensures
            *final(self) == old(self).stopped(),
            final(self).to_send() == 0,
    {
        self.closed = true;
    }
}

/// Makes the worker that submits `count` messages of `payload_size` zero
/// bytes to `topic`, `delay` seconds apart.
pub fn requests(topic: String, payload_size: usize, count: usize, qos: QoS, delay: u64) -> (worker:
    Publisher)
    ensures
        worker == (Publisher { topic, payload_size, count, qos, delay, sent: 0, closed: false }),
        worker.to_send() == count,
{
    Publisher { topic, payload_size, count, qos, delay, sent: 0, closed: false }
}

/// A fresh worker whose request channel stays open hands out exactly
/// `count` messages: after fewer it has the rest to send, after `count` it
/// has none, and the message is the same every time.
pub proof fn lemma_hands_out_count(worker: Publisher, handed: nat)
    requires
        worker.sent == 0,
        !worker.closed,
        handed <= worker.count,
    ensures
        worker.after(handed) == (Publisher { sent: handed as usize, ..worker }),
        worker.after(handed).to_send() == worker.count - handed,
        worker.after(handed).message() == worker.message(),
    decreases handed,
{
    if handed > 0 {
        lemma_hands_out_count(worker, (handed - 1) as nat);
    }
}

} // verus!
