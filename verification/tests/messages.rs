use camera_snitch::message::{
    state_message, BrokerMessage, CLIENT_ID, DISCOVERY_TOPIC, REQUEST_CAPACITY, STATE_TOPIC,
};
use camera_snitch::state::CameraState;

#[test]
fn payloads_are_on_and_off() {
    assert_eq!(CameraState::On.payload(), "ON");
    assert_eq!(CameraState::Off.payload(), "OFF");
}

#[test]
fn topics_are_those_of_the_office_camera() {
    assert_eq!(STATE_TOPIC, "homeassistant/binary_sensor/officecamera/state");
    assert_eq!(DISCOVERY_TOPIC, "homeassistant/binary_sensor/officecamera/config");
}

#[test]
fn client_identity_is_fixed() {
    assert_eq!(CLIENT_ID, "camera-snitch");
    assert_eq!(REQUEST_CAPACITY, 10);
}

#[test]
fn on_is_announced_retained_and_acknowledged() {
    assert_eq!(
        state_message(CameraState::On),
        BrokerMessage {
            topic: "homeassistant/binary_sensor/officecamera/state".to_string(),
            payload: "ON".to_string(),
            at_least_once: true,
            retained: true,
        }
    );
}

#[test]
fn off_is_announced_retained_and_acknowledged() {
    assert_eq!(
        state_message(CameraState::Off),
        BrokerMessage {
            topic: "homeassistant/binary_sensor/officecamera/state".to_string(),
            payload: "OFF".to_string(),
            at_least_once: true,
            retained: true,
        }
    );
}

#[test]
fn state_topic_is_one_that_the_broker_client_publishes_to() {
    assert!(rumqttc::valid_topic(STATE_TOPIC));
    assert!(rumqttc::valid_topic(DISCOVERY_TOPIC));
}
