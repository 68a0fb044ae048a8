//! The schema of the discovery document, and that every descriptor meets it.

use vstd::prelude::*;
use crate::discovery::{text_docs, DescriptorModel, DeviceModel};
use crate::json::{json_text, JsonDoc};
use crate::message::state_announcement;
use crate::state::CameraState;

verus! {

/// A JSON array of strings.
pub open spec fn is_text_list(doc: JsonDoc) -> bool {
    match doc {
        JsonDoc::List(items) => forall|i: int| 0 <= i < items.len() ==> (#[trigger] items[i]) is Text,
        _ => false,
    }
}

/// The schema of the `device` member: an object with exactly the members
/// `identifiers`, an array of strings, and `name`, `sw_version`, `model` and
/// `manufacturer`, all strings.
pub open spec fn is_device_document(doc: JsonDoc) -> bool {
    match doc {
        JsonDoc::Object(members) => {
            &&& members.dom() =~= set![
                "identifiers"@,
                "name"@,
                "sw_version"@,
                "model"@,
                "manufacturer"@,
            ]
            &&& is_text_list(members["identifiers"@])
            &&& members["name"@] is Text
            &&& members["sw_version"@] is Text
            &&& members["model"@] is Text
            &&& members["manufacturer"@] is Text
        },
        _ => false,
    }
}

/// The schema of the discovery document: an object with exactly the members
/// `name`, `state_topic`, `device_class`, `payload_on` and `payload_off`, all
/// strings, and `device`, a device object.
pub open spec fn is_discovery_document(doc: JsonDoc) -> bool {
    match doc {
        JsonDoc::Object(members) => {
            &&& members.dom() =~= set![
                "name"@,
                "device"@,
                "state_topic"@,
                "device_class"@,
                "payload_on"@,
                "payload_off"@,
            ]
            &&& members["name"@] is Text
            &&& is_device_document(members["device"@])
            &&& members["state_topic"@] is Text
            &&& members["device_class"@] is Text
            &&& members["payload_on"@] is Text
            &&& members["payload_off"@] is Text
        },
        _ => false,
    }
}

/// A text that the serialiser writes for some document of the discovery
/// schema.
pub open spec fn is_discovery_text(text: Seq<char>) -> bool {
    exists|doc: JsonDoc| is_discovery_document(doc) && #[trigger] json_text(doc) == Some(text)
}

/// The lengths of the device object's member names, which tell them apart.
proof fn lemma_device_keys_differ()
    ensures
        "identifiers"@.len() == 11,
        "name"@.len() == 4,
        "sw_version"@.len() == 10,
        "model"@.len() == 5,
        "manufacturer"@.len() == 12,
{
    reveal_strlit("identifiers");
    reveal_strlit("name");
    reveal_strlit("sw_version");
    reveal_strlit("model");
    reveal_strlit("manufacturer");
}

/// The lengths of the discovery document's member names, and the first
/// letters of the two that are equally long.
proof fn lemma_descriptor_keys_differ()
    ensures
        "name"@.len() == 4,
        "device"@.len() == 6,
        "state_topic"@.len() == 11,
        "device_class"@.len() == 12,
        "payload_on"@.len() == 10,
        "payload_off"@.len() == 11,
        "state_topic"@[0] == 's',
        "payload_off"@[0] == 'p',
{
    reveal_strlit("name");
    reveal_strlit("device");
    reveal_strlit("state_topic");
    reveal_strlit("device_class");
    reveal_strlit("payload_on");
    reveal_strlit("payload_off");
}

/// The device object has the shape that the schema asks for and holds the
/// device's values, whatever they are.
pub proof fn lemma_device_document_matches_schema(device: DeviceModel)
    ensures
        is_device_document(device.document()),
        device.document() matches JsonDoc::Object(members) && {
            &&& members["identifiers"@] == JsonDoc::List(text_docs(device.identifiers))
            &&& members["name"@] == JsonDoc::Text(device.name)
            &&& members["sw_version"@] == JsonDoc::Text(device.sw_version)
            &&& members["model"@] == JsonDoc::Text(device.model)
            &&& members["manufacturer"@] == JsonDoc::Text(device.manufacturer)
        },
{
    lemma_device_keys_differ();
}

/// The discovery document has the shape that the schema asks for and holds
/// the descriptor's values, whatever they are.
pub proof fn lemma_discovery_document_matches_schema(descriptor: DescriptorModel)
    ensures
        is_discovery_document(descriptor.document()),
        descriptor.document() matches JsonDoc::Object(members) && {
            &&& members["name"@] == JsonDoc::Text(descriptor.name)
            &&& members["device"@] == descriptor.device.document()
            &&& members["state_topic"@] == JsonDoc::Text(descriptor.state_topic)
            &&& members["device_class"@] == JsonDoc::Text(descriptor.device_class)
            &&& members["payload_on"@] == JsonDoc::Text(descriptor.payload_on)
            &&& members["payload_off"@] == JsonDoc::Text(descriptor.payload_off)
        },
{
    lemma_descriptor_keys_differ();
    lemma_device_document_matches_schema(descriptor.device);
}

/// The text that the serialiser writes for a descriptor's document is a
/// discovery text, whatever the descriptor holds.
pub proof fn lemma_descriptor_text_is_discovery_text(descriptor: DescriptorModel)
    ensures
        json_text(descriptor.document()) matches Some(text) ==> is_discovery_text(text),
{
    lemma_discovery_document_matches_schema(descriptor);
}

/// The office camera's descriptor names the topic and the payloads of the
/// state announcements.
pub proof fn lemma_descriptor_agrees_with_announcements()
    ensures
        state_announcement(CameraState::On).topic == DescriptorModel::office_camera().state_topic,
        state_announcement(CameraState::Off).topic == DescriptorModel::office_camera().state_topic,
        state_announcement(CameraState::On).payload == DescriptorModel::office_camera().payload_on,
        state_announcement(CameraState::Off).payload == DescriptorModel::office_camera().payload_off,
{
}

} // verus!
