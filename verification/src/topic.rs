//! Names of sessions and of the topics they use.

use crate::text::{decimal, push_decimal};
use vstd::prelude::*;
use vstd::string::*;

verus! {

/// What every session name starts with.
pub const ID_PREFIX: &'static str = "rumqtt";

/// Name of the session with the given index: `rumqtt-<index>` for an
/// ordinary session, `rumqtt-sink-<index>` for a sink.
pub open spec fn session_id(index: nat, sink: bool) -> Seq<char> {
    if sink {
        ID_PREFIX@ + "-sink-"@ + decimal(index)
    } else {
        ID_PREFIX@ + "-"@ + decimal(index)
    }
}

/// Topic of the subscription in the given slot of an ordinary session:
/// `hello/rumqtt-<slot>/0/world`.
pub open spec fn subscribe_topic(slot: nat) -> Seq<char> {
    "hello/"@ + ID_PREFIX@ + "-"@ + decimal(slot) + "/0/world"@
}

/// Topic that the given worker of the session named `id` publishes to:
/// `hello/<id>/<worker>/world`.
pub open spec fn publish_topic(id: Seq<char>, worker: nat) -> Seq<char> {
    "hello/"@ + id + "/"@ + decimal(worker) + "/world"@
}

/// Makes the name of a session.
pub fn make_session_id(index: usize, sink: bool) -> (id: String)
    ensures
        id@ == session_id(index as nat, sink),
{
    let mut id = String::from_str(ID_PREFIX);
    if sink {
        id.append("-sink-");
    } else {
        id.append("-");
    }
    push_decimal(&mut id, index);
    id
}

/// Makes the topic of the subscription in the given slot.
pub fn make_subscribe_topic(slot: usize) -> (topic: String)
    ensures
        topic@ == subscribe_topic(slot as nat),
{
    let mut topic = String::from_str("hello/");
    topic.append(ID_PREFIX);
    topic.append("-");
    push_decimal(&mut topic, slot);
    topic.append("/0/world");
    topic
}

/// Makes the topic that the given worker of the session `id` publishes to.
pub fn make_publish_topic(id: &str, worker: usize) -> (topic: String)
    ensures
        topic@ == publish_topic(id@, worker as nat),
{
    let mut topic = String::from_str("hello/");
    topic.append(id);
    topic.append("/");
    push_decimal(&mut topic, worker);
    topic.append("/world");
    topic
}

/// The first worker of the ordinary session `index` publishes to the topic
/// that the subscription in slot `index` listens to.
pub proof fn lemma_first_worker_publishes_to_own_slot(index: nat)
    ensures
        publish_topic(session_id(index, false), 0) == subscribe_topic(index),
{
    reveal_strlit("/");
    reveal_strlit("/world");
    reveal_strlit("/0/world");
    assert(decimal(0) =~= seq!['0']);
    assert("/"@ + decimal(0) + "/world"@ =~= "/0/world"@);
    assert(publish_topic(session_id(index, false), 0) =~= "hello/"@ + ID_PREFIX@ + "-"@ + decimal(
        index,
    ) + ("/"@ + decimal(0) + "/world"@));
}

} // verus!
