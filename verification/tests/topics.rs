use mqtt_bench::text::push_decimal;
use mqtt_bench::topic::{make_publish_topic, make_session_id, make_subscribe_topic, ID_PREFIX};

fn numeral(n: usize) -> String {
    let mut text = String::new();
    push_decimal(&mut text, n);
    text
}

#[test]
fn decimal_of_single_digits() {
    assert_eq!(numeral(0), "0");
    assert_eq!(numeral(7), "7");
    assert_eq!(numeral(9), "9");
}

#[test]
fn decimal_of_longer_numbers() {
    assert_eq!(numeral(10), "10");
    assert_eq!(numeral(99), "99");
    assert_eq!(numeral(100), "100");
    assert_eq!(numeral(1234567890), "1234567890");
    assert_eq!(numeral(usize::MAX), format!("{}", usize::MAX));
}

#[test]
fn decimal_is_appended_to_what_is_there() {
    let mut text = String::from("n=");
    push_decimal(&mut text, 405);
    assert_eq!(text, "n=405");
}

#[test]
fn prefix_is_rumqtt() {
    assert_eq!(ID_PREFIX, "rumqtt");
}

#[test]
fn ordinary_session_names() {
    assert_eq!(make_session_id(0, false), "rumqtt-0");
    assert_eq!(make_session_id(3, false), "rumqtt-3");
    assert_eq!(make_session_id(12345, false), "rumqtt-12345");
}

#[test]
fn sink_session_names() {
    assert_eq!(make_session_id(0, true), "rumqtt-sink-0");
    assert_eq!(make_session_id(1, true), "rumqtt-sink-1");
    assert_eq!(make_session_id(20, true), "rumqtt-sink-20");
}

#[test]
fn subscribe_topics_by_slot() {
    assert_eq!(make_subscribe_topic(0), "hello/rumqtt-0/0/world");
    assert_eq!(make_subscribe_topic(1), "hello/rumqtt-1/0/world");
    assert_eq!(make_subscribe_topic(31), "hello/rumqtt-31/0/world");
}

#[test]
fn publish_topics_by_session_and_worker() {
    assert_eq!(make_publish_topic("rumqtt-0", 0), "hello/rumqtt-0/0/world");
    assert_eq!(make_publish_topic("rumqtt-4", 2), "hello/rumqtt-4/2/world");
    assert_eq!(make_publish_topic("rumqtt-sink-1", 10), "hello/rumqtt-sink-1/10/world");
}

#[test]
fn first_worker_of_a_session_publishes_where_its_slot_subscribes() {
    let id = make_session_id(6, false);
    assert_eq!(make_publish_topic(&id, 0), make_subscribe_topic(6));
}
