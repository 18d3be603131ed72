//! Requests that a session hands to its protocol engine.

use crate::qos::QoS;
use vstd::prelude::*;

verus! {

/// A request for the engine's request channel.
#[derive(Clone, Debug, PartialEq, Eq)]
pub enum Request {
    /// Subscribe to a topic.
    Subscribe { topic: String, qos: QoS },
    /// Publish a message to a topic.
    Publish { topic: String, qos: QoS, payload: Vec<u8> },
}

/// What a request says.
pub enum RequestView {
    Subscribe { topic: Seq<char>, qos: QoS },
    Publish { topic: Seq<char>, qos: QoS, payload: Seq<u8> },
}

impl View for Request {
    type V = RequestView;

    open spec fn view(&self) -> RequestView {
        match *self {
            Request::Subscribe { topic, qos } => RequestView::Subscribe { topic: topic@, qos },
            Request::Publish { topic, qos, payload } => RequestView::Publish {
                topic: topic@,
                qos,
                payload: payload@,
            },
        }
    }
}

/// A payload of `size` zero bytes.
pub open spec fn zeros(size: nat) -> Seq<u8> {
    Seq::new(size, |i: int| 0u8)
}

/// Makes the request to subscribe to `topic`.
pub fn subscribe(topic: String, qos: QoS) -> (request: Request)
    ensures
        request@ == (RequestView::Subscribe { topic: topic@, qos }),
{
    Request::Subscribe { topic, qos }
}

/// Makes a payload of `size` zero bytes.
pub fn zero_payload(size: usize) -> (payload: Vec<u8>)
    ensures
        payload@ == zeros(size as nat),
{
    let mut payload: Vec<u8> = Vec::new();
    while payload.len() < size
        invariant
            payload.len() <= size,
            payload@ == zeros(payload.len() as nat),
        decreases size - payload.len(),
    {
        payload.push(0u8);
        assert(payload@ =~= zeros(payload.len() as nat));
    }
    payload
}

/// Makes the request to publish `size` zero bytes to `topic`.
pub fn publish(topic: String, qos: QoS, size: usize) -> (request: Request)
    ensures
        request@ == (RequestView::Publish { topic: topic@, qos, payload: zeros(size as nat) }),
{
    Request::Publish { topic, qos, payload: zero_payload(size) }
}

} // verus!
