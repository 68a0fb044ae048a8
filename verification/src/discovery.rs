//! The discovery descriptor: the document by which an automation hub
//! registers the sensor without manual configuration.

use vstd::prelude::*;
use crate::schema::{is_discovery_text, lemma_descriptor_text_is_discovery_text};
use crate::json::{
    empty_members, failure_detail, json_text, list_value, no_members, object_value, put_member,
    render, text_value, value_doc, value_docs, JsonDoc,
};
use crate::message::{discovery_announcement, BrokerMessage, DISCOVERY_TOPIC, STATE_TOPIC};
use crate::state::CameraState;

verus! {

/// The device that the sensor belongs to.
#[derive(Clone, Debug, PartialEq, Eq)]
pub struct Device {
    pub identifiers: Vec<String>,
    pub name: String,
    pub sw_version: String,
    pub model: String,
    pub manufacturer: String,
}

/// The discovery descriptor: display name, device identity, state topic,
/// device class and the two payloads.
#[derive(Clone, Debug, PartialEq, Eq)]
pub struct DiscoveryDescriptor {
    pub name: String,
    pub device: Device,
    pub state_topic: String,
    pub device_class: String,
    pub payload_on: String,
    pub payload_off: String,
}

/// A device as a mathematical value.
pub struct DeviceModel {
    pub identifiers: Seq<Seq<char>>,
    pub name: Seq<char>,
    pub sw_version: Seq<char>,
    pub model: Seq<char>,
    pub manufacturer: Seq<char>,
}

/// A discovery descriptor as a mathematical value.
pub struct DescriptorModel {
    pub name: Seq<char>,
    pub device: DeviceModel,
    pub state_topic: Seq<char>,
    pub device_class: Seq<char>,
    pub payload_on: Seq<char>,
    pub payload_off: Seq<char>,
}

/// The characters of each string of a sequence.
pub open spec fn texts_of(strings: Seq<String>) -> Seq<Seq<char>> {
    strings.map_values(|s: String| s@)
}

/// A JSON string for each text of a sequence.
pub open spec fn text_docs(texts: Seq<Seq<char>>) -> Seq<JsonDoc> {
    texts.map_values(|t: Seq<char>| JsonDoc::Text(t))
}

impl View for Device {
    type V = DeviceModel;

    open spec fn view(&self) -> DeviceModel {
        DeviceModel {
            identifiers: texts_of(self.identifiers@),
            name: self.name@,
            sw_version: self.sw_version@,
            model: self.model@,
            manufacturer: self.manufacturer@,
        }
    }
}

impl View for DiscoveryDescriptor {
    type V = DescriptorModel;

    open spec fn view(&self) -> DescriptorModel {
        DescriptorModel {
            name: self.name@,
            device: self.device@,
            state_topic: self.state_topic@,
            device_class: self.device_class@,
            payload_on: self.payload_on@,
            payload_off: self.payload_off@,
        }
    }
}

impl DeviceModel {
    /// The device of the office camera sensor.
    pub open spec fn office_camera() -> DeviceModel {
        DeviceModel {
            identifiers: seq!["officecamera"@],
            name: "Office Camera"@,
            sw_version: "0.1"@,
            model: "Custom Binary Sensor"@,
            manufacturer: "Will Eaton <me@wseaton.com>"@,
        }
    }

    /// The device as a JSON object.
    pub open spec fn document(self) -> JsonDoc {
        JsonDoc::Object(
            no_members().insert("identifiers"@, JsonDoc::List(text_docs(self.identifiers))).insert(
                "name"@,
                JsonDoc::Text(self.name),
            ).insert("sw_version"@, JsonDoc::Text(self.sw_version)).insert(
                "model"@,
                JsonDoc::Text(self.model),
            ).insert("manufacturer"@, JsonDoc::Text(self.manufacturer)),
        )
    }
}

impl DescriptorModel {
    /// The descriptor of the office camera sensor: a connectivity sensor whose
    /// state topic and payloads are those of the state announcements.
    pub open spec fn office_camera() -> DescriptorModel {
        DescriptorModel {
            name: "OfficeCamera"@,
            device: DeviceModel::office_camera(),
            state_topic: STATE_TOPIC@,
            device_class: "connectivity"@,
            payload_on: CameraState::On.payload_text(),
            payload_off: CameraState::Off.payload_text(),
        }
    }

    /// The descriptor as a JSON object.
    pub open spec fn document(self) -> JsonDoc {
        JsonDoc::Object(
            no_members().insert("name"@, JsonDoc::Text(self.name)).insert(
                "device"@,
                self.device.document(),
            ).insert("state_topic"@, JsonDoc::Text(self.state_topic)).insert(
                "device_class"@,
                JsonDoc::Text(self.device_class),
            ).insert("payload_on"@, JsonDoc::Text(self.payload_on)).insert(
                "payload_off"@,
                JsonDoc::Text(self.payload_off),
            ),
        )
    }
}

/// A JSON string value for each string, in order.
fn text_values(texts: &Vec<String>) -> (values: Vec<serde_json::Value>)
    ensures
        value_docs(values@) == text_docs(texts_of(texts@)),
{
    let mut values: Vec<serde_json::Value> = Vec::new();
    let mut i: usize = 0;
    while i < texts.len()
        invariant
            i <= texts.len(),
            values.len() == i,
            forall|k: int| 0 <= k < i ==> value_doc(#[trigger] values@[k]) == JsonDoc::Text(texts@[k]@),
        decreases texts.len() - i,
    {
        values.push(text_value(texts[i].as_str()));
        i = i + 1;
    }
    assert(value_docs(values@) =~= text_docs(texts_of(texts@)));
    values
}

impl Device {
    /// The device of the office camera sensor.
    pub fn office_camera() -> (device: Device)
        ensures
            device@ == DeviceModel::office_camera(),
    {
        let mut identifiers: Vec<String> = Vec::new();
        identifiers.push("officecamera".to_owned());
        assert(texts_of(identifiers@) =~= seq!["officecamera"@]);
        Device {
            identifiers,
            name: "Office Camera".to_owned(),
            sw_version: "0.1".to_owned(),
            model: "Custom Binary Sensor".to_owned(),
            manufacturer: "Will Eaton <me@wseaton.com>".to_owned(),
        }
    }

    /// Builds the device's JSON object.
    pub fn to_value(&self) -> (value: serde_json::Value)
        ensures
            value_doc(value) == self@.document(),
    {
        let mut members = empty_members();
        put_member(&mut members, "identifiers", list_value(text_values(&self.identifiers)));
        put_member(&mut members, "name", text_value(self.name.as_str()));
        put_member(&mut members, "sw_version", text_value(self.sw_version.as_str()));
        put_member(&mut members, "model", text_value(self.model.as_str()));
        put_member(&mut members, "manufacturer", text_value(self.manufacturer.as_str()));
        object_value(members)
    }
}

/// The descriptor could not be written as text.
#[derive(Clone, Debug, PartialEq, Eq)]
pub struct EncodingError {
    /// The serialiser's own account of the failure.
    pub detail: String,
}

/// Frames the outcome of serialising the descriptor: its text becomes the
/// payload of the discovery announcement, a failure is reported as such.
pub fn frame_discovery(encoded: Result<String, serde_json::Error>) -> (framed: Result<
    BrokerMessage,
    EncodingError,
>)
    ensures
        match encoded {
            Ok(text) => framed matches Ok(message) && message@ == discovery_announcement(text@),
            Err(_) => framed is Err,
        },
{
    match encoded {
        Ok(text) => Ok(
            BrokerMessage {
                topic: DISCOVERY_TOPIC.to_owned(),
                payload: text,
                at_least_once: true,
                retained: true,
            },
        ),
        Err(error) => Err(EncodingError { detail: failure_detail(&error) }),
    }
}

impl DiscoveryDescriptor {
    /// The descriptor of the office camera sensor.
    pub fn office_camera() -> (descriptor: DiscoveryDescriptor)
        ensures
            descriptor@ == DescriptorModel::office_camera(),
    {
        DiscoveryDescriptor {
            name: "OfficeCamera".to_owned(),
            device: Device::office_camera(),
            state_topic: STATE_TOPIC.to_owned(),
            device_class: "connectivity".to_owned(),
            payload_on: CameraState::On.payload(),
            payload_off: CameraState::Off.payload(),
        }
    }

    /// Builds the descriptor's JSON object.
    pub fn to_value(&self) -> (value: serde_json::Value)
        ensures
            value_doc(value) == self@.document(),
    {
        let mut members = empty_members();
        put_member(&mut members, "name", text_value(self.name.as_str()));
        put_member(&mut members, "device", self.device.to_value());
        put_member(&mut members, "state_topic", text_value(self.state_topic.as_str()));
        put_member(&mut members, "device_class", text_value(self.device_class.as_str()));
        put_member(&mut members, "payload_on", text_value(self.payload_on.as_str()));
        put_member(&mut members, "payload_off", text_value(self.payload_off.as_str()));
        object_value(members)
    }

    /// Builds the discovery announcement: the descriptor's JSON text on the
    /// discovery topic. It succeeds exactly when the serialiser writes the
    /// descriptor's document, and fails exactly when the serialiser does.
    /// The text is that of a document of the discovery schema, whatever the
    /// descriptor holds.
    pub fn message(&self) -> (announcement: Result<BrokerMessage, EncodingError>)
        ensures
            match json_text(self@.document()) {
                Some(text) => announcement matches Ok(message) && message@
                    == discovery_announcement(text),
                None => announcement is Err,
            },
            announcement matches Ok(message) ==> is_discovery_text(message.payload@),
    {
        proof {
            lemma_descriptor_text_is_discovery_text(self@);
        }
        let value = self.to_value();
        frame_discovery(render(&value))
    }
}

} // verus!
