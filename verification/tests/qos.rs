use mqtt_bench::qos::{get_qos, QoS};

#[test]
fn qos_numbers_name_levels() {
    assert_eq!(get_qos(0), QoS::AtMostOnce);
    assert_eq!(get_qos(1), QoS::AtLeastOnce);
    assert_eq!(get_qos(2), QoS::ExactlyOnce);
}

#[test]
fn qos_defaults_to_at_least_once() {
    assert_eq!(get_qos(3), QoS::AtLeastOnce);
    assert_eq!(get_qos(-1), QoS::AtLeastOnce);
    assert_eq!(get_qos(i16::MAX), QoS::AtLeastOnce);
    assert_eq!(get_qos(i16::MIN), QoS::AtLeastOnce);
}
