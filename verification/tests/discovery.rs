use camera_snitch::discovery::{frame_discovery, Device, DiscoveryDescriptor};
use camera_snitch::message::{state_message, DISCOVERY_TOPIC, STATE_TOPIC};
use camera_snitch::state::CameraState;
use serde_json::Value;

const OFFICE_CAMERA_TEXT: &str = "{\"device\":{\"identifiers\":[\"officecamera\"],\
\"manufacturer\":\"Will Eaton <me@wseaton.com>\",\"model\":\"Custom Binary Sensor\",\
\"name\":\"Office Camera\",\"sw_version\":\"0.1\"},\"device_class\":\"connectivity\",\
\"name\":\"OfficeCamera\",\"payload_off\":\"OFF\",\"payload_on\":\"ON\",\
\"state_topic\":\"homeassistant/binary_sensor/officecamera/state\"}";

fn descriptor_with(texts: [&str; 10], identifiers: &[&str]) -> DiscoveryDescriptor {
    DiscoveryDescriptor {
        name: texts[0].to_string(),
        device: Device {
            identifiers: identifiers.iter().map(|id| id.to_string()).collect(),
            name: texts[1].to_string(),
            sw_version: texts[2].to_string(),
            model: texts[3].to_string(),
            manufacturer: texts[4].to_string(),
        },
        state_topic: texts[5].to_string(),
        device_class: texts[6].to_string(),
        payload_on: texts[7].to_string(),
        payload_off: texts[8].to_string(),
    }
}

fn keys_of(object: &Value) -> Vec<String> {
    let mut keys: Vec<String> = object.as_object().unwrap().keys().cloned().collect();
    keys.sort();
    keys
}

/// Holds a value against the schema of the discovery document.
fn check_schema(document: &Value) {
    assert!(document.is_object());
    assert_eq!(
        keys_of(document),
        vec!["device", "device_class", "name", "payload_off", "payload_on", "state_topic"]
    );
    for key in ["device_class", "name", "payload_off", "payload_on", "state_topic"] {
        assert!(document[key].is_string(), "{key} is no string");
    }
    let device = &document["device"];
    assert!(device.is_object());
    assert_eq!(
        keys_of(device),
        vec!["identifiers", "manufacturer", "model", "name", "sw_version"]
    );
    for key in ["manufacturer", "model", "name", "sw_version"] {
        assert!(device[key].is_string(), "device.{key} is no string");
    }
    assert!(device["identifiers"].is_array());
    for identifier in device["identifiers"].as_array().unwrap() {
        assert!(identifier.is_string());
    }
}

#[test]
fn office_camera_descriptor_holds_the_fixed_values() {
    let descriptor = DiscoveryDescriptor::office_camera();
    assert_eq!(descriptor.name, "OfficeCamera");
    assert_eq!(descriptor.device.identifiers, vec!["officecamera".to_string()]);
    assert_eq!(descriptor.device.name, "Office Camera");
    assert_eq!(descriptor.device.sw_version, "0.1");
    assert_eq!(descriptor.device.model, "Custom Binary Sensor");
    assert_eq!(descriptor.device.manufacturer, "Will Eaton <me@wseaton.com>");
    assert_eq!(descriptor.state_topic, "homeassistant/binary_sensor/officecamera/state");
    assert_eq!(descriptor.device_class, "connectivity");
    assert_eq!(descriptor.payload_on, "ON");
    assert_eq!(descriptor.payload_off, "OFF");
    assert_eq!(descriptor.device, Device::office_camera());
}

#[test]
fn office_camera_descriptor_agrees_with_the_state_announcements() {
    let descriptor = DiscoveryDescriptor::office_camera();
    assert_eq!(descriptor.state_topic, STATE_TOPIC);
    assert_eq!(descriptor.state_topic, state_message(CameraState::On).topic);
    assert_eq!(descriptor.payload_on, state_message(CameraState::On).payload);
    assert_eq!(descriptor.payload_off, state_message(CameraState::Off).payload);
}

#[test]
fn office_camera_announcement_is_the_expected_text() {
    let message = DiscoveryDescriptor::office_camera().message().unwrap();
    assert_eq!(message.topic, "homeassistant/binary_sensor/officecamera/config");
    assert_eq!(message.topic, DISCOVERY_TOPIC);
    assert_eq!(message.payload, OFFICE_CAMERA_TEXT);
    assert!(message.at_least_once);
    assert!(message.retained);
}

#[test]
fn office_camera_announcement_validates_against_the_schema() {
    let message = DiscoveryDescriptor::office_camera().message().unwrap();
    let document: Value = serde_json::from_str(&message.payload).unwrap();
    check_schema(&document);
    assert_eq!(document["name"], Value::from("OfficeCamera"));
    assert_eq!(document["device"]["identifiers"][0], Value::from("officecamera"));
    assert_eq!(document["device"]["manufacturer"], Value::from("Will Eaton <me@wseaton.com>"));
    assert_eq!(document["device_class"], Value::from("connectivity"));
    assert_eq!(document["payload_on"], Value::from("ON"));
    assert_eq!(document["payload_off"], Value::from("OFF"));
}

#[test]
fn announcing_twice_gives_the_same_message() {
    let descriptor = DiscoveryDescriptor::office_camera();
    assert_eq!(descriptor.message().unwrap(), descriptor.message().unwrap());
}

#[test]
fn descriptor_value_is_the_object_of_its_members() {
    let mut device = serde_json::Map::new();
    device.insert("identifiers".to_string(), Value::from(vec![Value::from("officecamera")]));
    device.insert("name".to_string(), Value::from("Office Camera"));
    device.insert("sw_version".to_string(), Value::from("0.1"));
    device.insert("model".to_string(), Value::from("Custom Binary Sensor"));
    device.insert("manufacturer".to_string(), Value::from("Will Eaton <me@wseaton.com>"));
    let mut members = serde_json::Map::new();
    members.insert("name".to_string(), Value::from("OfficeCamera"));
    members.insert("device".to_string(), Value::from(device.clone()));
    members.insert(
        "state_topic".to_string(),
        Value::from("homeassistant/binary_sensor/officecamera/state"),
    );
    members.insert("device_class".to_string(), Value::from("connectivity"));
    members.insert("payload_on".to_string(), Value::from("ON"));
    members.insert("payload_off".to_string(), Value::from("OFF"));
    assert_eq!(Device::office_camera().to_value(), Value::from(device));
    assert_eq!(DiscoveryDescriptor::office_camera().to_value(), Value::from(members));
}

#[test]
fn any_configuration_validates_against_the_schema() {
    let descriptors = [
        descriptor_with(["", "", "", "", "", "", "", "", "", ""], &[]),
        descriptor_with(
            [
                "Front \"door\" camera",
                "back\\slash",
                "1.0\n2.0",
                "{\"model\":1}",
                "[\"not\",\"an\",\"array\"]",
                "cams/front door/state",
                "null",
                "true",
                "0",
                "",
            ],
            &["a", "", "c\"d", "\u{1f4f7}"],
        ),
        descriptor_with(
            ["名前", "\t", "\u{0}", "\u{7f}", "é", "#", "+", "ON", "ON", ""],
            &["same", "same"],
        ),
    ];
    for descriptor in descriptors {
        let message = descriptor.message().unwrap();
        let document: Value = serde_json::from_str(&message.payload).unwrap();
        check_schema(&document);
        check_schema(&descriptor.to_value());
        assert_eq!(document, descriptor.to_value());
        assert_eq!(document["name"], Value::from(descriptor.name.as_str()));
        assert_eq!(document["state_topic"], Value::from(descriptor.state_topic.as_str()));
        assert_eq!(document["device_class"], Value::from(descriptor.device_class.as_str()));
        assert_eq!(document["payload_on"], Value::from(descriptor.payload_on.as_str()));
        assert_eq!(document["payload_off"], Value::from(descriptor.payload_off.as_str()));
        let device = &document["device"];
        assert_eq!(device["name"], Value::from(descriptor.device.name.as_str()));
        assert_eq!(device["sw_version"], Value::from(descriptor.device.sw_version.as_str()));
        assert_eq!(device["model"], Value::from(descriptor.device.model.as_str()));
        assert_eq!(device["manufacturer"], Value::from(descriptor.device.manufacturer.as_str()));
        let identifiers: Vec<Value> =
            descriptor.device.identifiers.iter().map(|id| Value::from(id.as_str())).collect();
        assert_eq!(device["identifiers"], Value::from(identifiers));
        assert_eq!(message.topic, DISCOVERY_TOPIC);
    }
}

#[test]
fn text_with_quotes_is_escaped() {
    let descriptor = descriptor_with(
        ["a\"b", "n", "v", "m", "f", "t", "c", "ON", "OFF", ""],
        &["id"],
    );
    let message = descriptor.message().unwrap();
    assert_eq!(
        message.payload,
        "{\"device\":{\"identifiers\":[\"id\"],\"manufacturer\":\"f\",\"model\":\"m\",\
\"name\":\"n\",\"sw_version\":\"v\"},\"device_class\":\"c\",\"name\":\"a\\\"b\",\
\"payload_off\":\"OFF\",\"payload_on\":\"ON\",\"state_topic\":\"t\"}"
    );
}

#[test]
fn identifiers_keep_their_order() {
    let descriptor = descriptor_with(
        ["n", "n", "v", "m", "f", "t", "c", "ON", "OFF", ""],
        &["zeta", "alpha", "mid"],
    );
    let value = descriptor.to_value();
    assert_eq!(
        value["device"]["identifiers"],
        Value::from(vec![Value::from("zeta"), Value::from("alpha"), Value::from("mid")])
    );
}

#[test]
fn framing_puts_the_text_on_the_discovery_topic() {
    let message = frame_discovery(Ok("{\"any\":\"text\"}".to_string())).unwrap();
    assert_eq!(message.topic, DISCOVERY_TOPIC);
    assert_eq!(message.payload, "{\"any\":\"text\"}");
    assert!(message.at_least_once);
    assert!(message.retained);
}

#[test]
fn framing_reports_a_failed_serialisation() {
    let failure = serde_json::from_str::<Value>("{").unwrap_err();
    let expected = failure.to_string();
    let error = frame_discovery(Err(failure)).unwrap_err();
    assert_eq!(error.detail, expected);
    assert!(!error.detail.is_empty());
}
