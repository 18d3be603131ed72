//! Delivery guarantee levels.

use vstd::prelude::*;

verus! {

/// Delivery guarantee requested for a subscription or a published message.
#[derive(Clone, Copy, Debug, PartialEq, Eq, Structural)]
pub enum QoS {
    AtMostOnce,
    AtLeastOnce,
    ExactlyOnce,
}

/// The level that a configured number stands for: `0`, `1` and `2` name the
/// three levels, every other number falls back to at-least-once.
pub open spec fn qos_of(level: int) -> QoS {
    if level == 0 {
        QoS::AtMostOnce
    } else if level == 1 {
        QoS::AtLeastOnce
    } else if level == 2 {
        QoS::ExactlyOnce
    } else {
        QoS::AtLeastOnce
    }
}

/// Maps the configured number to a level; at-least-once is the default.
pub fn get_qos(qos: i16) -> (level: QoS)
    ensures
        level == qos_of(qos as int),
{
    match qos {
        0 => QoS::AtMostOnce,
        1 => QoS::AtLeastOnce,
        2 => QoS::ExactlyOnce,
        _ => QoS::AtLeastOnce,
    }
}

} // verus!
