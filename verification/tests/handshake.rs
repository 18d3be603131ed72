use mqtt_bench::connection::ConnectionError;
use mqtt_bench::event::{InboundEvent, Polled};
use mqtt_bench::handshake::{Handshake, Progress};

#[test]
fn handshake_starts_pending() {
    let handshake = Handshake::new(3);
    assert_eq!(handshake.expected, 3);
    assert_eq!(handshake.acks, 0);
    assert_eq!(handshake.progress, Progress::Pending);
}

#[test]
fn handshake_is_ready_after_all_subscription_acks() {
    let mut handshake = Handshake::new(3);
    assert_eq!(handshake.on_poll(Polled::Inbound(InboundEvent::ConnAck)), Progress::Pending);
    assert_eq!(handshake.on_poll(Polled::Inbound(InboundEvent::SubAck)), Progress::Pending);
    assert_eq!(handshake.on_poll(Polled::Quiet), Progress::Pending);
    assert_eq!(handshake.on_poll(Polled::Inbound(InboundEvent::SubAck)), Progress::Pending);
    assert_eq!(handshake.acks, 2);
    assert_eq!(handshake.on_poll(Polled::Inbound(InboundEvent::SubAck)), Progress::Ready);
    assert_eq!(handshake.acks, 3);
}

#[test]
fn handshake_of_a_sink_needs_one_ack() {
    let mut handshake = Handshake::new(1);
    assert_eq!(handshake.on_poll(Polled::Inbound(InboundEvent::ConnAck)), Progress::Pending);
    assert_eq!(handshake.on_poll(Polled::Inbound(InboundEvent::SubAck)), Progress::Ready);
}

#[test]
fn handshake_without_subscriptions_is_ready_after_first_poll() {
    let mut handshake = Handshake::new(0);
    assert_eq!(handshake.progress, Progress::Pending);
    assert_eq!(handshake.on_poll(Polled::Inbound(InboundEvent::ConnAck)), Progress::Ready);
    assert_eq!(handshake.acks, 0);

    let mut quiet = Handshake::new(0);
    assert_eq!(quiet.on_poll(Polled::Quiet), Progress::Ready);

    let mut acked = Handshake::new(0);
    assert_eq!(acked.on_poll(Polled::Inbound(InboundEvent::SubAck)), Progress::Ready);
    assert_eq!(acked.acks, 1);
}

#[test]
fn handshake_fails_on_wrong_packet() {
    for event in [
        InboundEvent::PubAck,
        InboundEvent::Publish,
        InboundEvent::PingResp,
        InboundEvent::Other,
    ] {
        let mut handshake = Handshake::new(2);
        assert_eq!(handshake.on_poll(Polled::Inbound(InboundEvent::SubAck)), Progress::Pending);
        assert_eq!(
            handshake.on_poll(Polled::Inbound(event)),
            Progress::Failed(ConnectionError::WrongPacket(event))
        );
        assert_eq!(handshake.acks, 1);
    }
}

#[test]
fn handshake_fails_on_connection_failure() {
    let mut handshake = Handshake::new(2);
    assert_eq!(handshake.on_poll(Polled::Failed), Progress::Failed(ConnectionError::Connection));
}

#[test]
fn wrong_packet_in_one_session_leaves_the_others_alone() {
    let mut first = Handshake::new(1);
    let mut second = Handshake::new(1);
    assert_eq!(first.on_poll(Polled::Inbound(InboundEvent::ConnAck)), Progress::Pending);
    assert_eq!(second.on_poll(Polled::Inbound(InboundEvent::ConnAck)), Progress::Pending);
    assert_eq!(
        first.on_poll(Polled::Inbound(InboundEvent::Publish)),
        Progress::Failed(ConnectionError::WrongPacket(InboundEvent::Publish))
    );
    assert_eq!(second.progress, Progress::Pending);
    assert_eq!(second.on_poll(Polled::Inbound(InboundEvent::SubAck)), Progress::Ready);
}

#[test]
fn finished_handshake_stays_as_it_is() {
    let mut ready = Handshake::new(1);
    assert_eq!(ready.on_poll(Polled::Inbound(InboundEvent::SubAck)), Progress::Ready);
    let before = ready;
    assert_eq!(ready.on_poll(Polled::Inbound(InboundEvent::Publish)), Progress::Ready);
    assert_eq!(ready.on_poll(Polled::Failed), Progress::Ready);
    assert_eq!(ready.on_poll(Polled::Inbound(InboundEvent::SubAck)), Progress::Ready);
    assert_eq!(ready, before);

    let mut failed = Handshake::new(1);
    let error = Progress::Failed(ConnectionError::Connection);
    assert_eq!(failed.on_poll(Polled::Failed), error);
    assert_eq!(failed.on_poll(Polled::Inbound(InboundEvent::SubAck)), error);
    assert_eq!(failed.acks, 0);
}

#[test]
fn reachable_handshake_states_pass_the_check() {
    let mut handshake = Handshake::new(2);
    assert!(handshake.check());
    for polled in [
        Polled::Inbound(InboundEvent::ConnAck),
        Polled::Inbound(InboundEvent::SubAck),
        Polled::Quiet,
        Polled::Inbound(InboundEvent::SubAck),
        Polled::Failed,
    ] {
        handshake.on_poll(polled);
        assert!(handshake.check());
    }
    let mut failed = Handshake::new(0);
    failed.on_poll(Polled::Failed);
    assert!(failed.check());
}

#[test]
fn unreachable_handshake_states_fail_the_check() {
    assert!(!Handshake { expected: 2, acks: 2, progress: Progress::Pending }.check());
    assert!(!Handshake { expected: 2, acks: 5, progress: Progress::Pending }.check());
    assert!(!Handshake { expected: 2, acks: 1, progress: Progress::Ready }.check());
    assert!(!Handshake { expected: 2, acks: 3, progress: Progress::Ready }.check());
    assert!(!Handshake { expected: 0, acks: 2, progress: Progress::Ready }.check());
    assert!(Handshake { expected: 0, acks: 0, progress: Progress::Ready }.check());
    assert!(Handshake { expected: 0, acks: 1, progress: Progress::Ready }.check());
    assert!(Handshake { expected: 2, acks: 1, progress: Progress::Pending }.check());
    assert!(Handshake { expected: 0, acks: 0, progress: Progress::Pending }.check());
    assert!(Handshake { expected: 2, acks: 2, progress: Progress::Ready }.check());
}
