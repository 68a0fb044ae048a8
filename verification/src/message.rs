//! What the broker publisher sends: one message per confirmed transition, and
//! the discovery announcement.

use vstd::prelude::*;
use crate::state::CameraState;

verus! {

/// The topic on which the state is announced.
pub const STATE_TOPIC: &'static str = "homeassistant/binary_sensor/officecamera/state";

/// The topic on which the discovery descriptor is announced.
pub const DISCOVERY_TOPIC: &'static str = "homeassistant/binary_sensor/officecamera/config";

/// The identity under which the daemon connects to the broker.
pub const CLIENT_ID: &'static str = "camera-snitch";

/// How many requests to the broker may wait in the client at a time.
pub const REQUEST_CAPACITY: usize = 10;

/// A message for the broker: where it goes, what it says, and how it is
/// delivered.
#[derive(Clone, Debug, PartialEq, Eq)]
pub struct BrokerMessage {
    pub topic: String,
    pub payload: String,
    /// The broker acknowledges receipt; the message may arrive twice.
    pub at_least_once: bool,
    /// The broker keeps the message as the topic's last known value.
    pub retained: bool,
}

/// A broker message as a mathematical value.
pub struct MessageModel {
    pub topic: Seq<char>,
    pub payload: Seq<char>,
    pub at_least_once: bool,
    pub retained: bool,
}

impl View for BrokerMessage {
    type V = MessageModel;

    open spec fn view(&self) -> MessageModel {
        MessageModel {
            topic: self.topic@,
            payload: self.payload@,
            at_least_once: self.at_least_once,
            retained: self.retained,
        }
    }
}

/// The message that announces a confirmed state: the state's payload on the
/// state topic, retained, delivered at least once.
pub open spec fn state_announcement(state: CameraState) -> MessageModel {
    MessageModel {
        topic: STATE_TOPIC@,
        payload: state.payload_text(),
        at_least_once: true,
        retained: true,
    }
}

/// The message that announces the discovery descriptor, given its text: on
/// the discovery topic, retained, delivered at least once.
pub open spec fn discovery_announcement(text: Seq<char>) -> MessageModel {
    MessageModel { topic: DISCOVERY_TOPIC@, payload: text, at_least_once: true, retained: true }
}

/// Builds the message that announces a confirmed state.
pub fn state_message(state: CameraState) -> (message: BrokerMessage)
    ensures
        message@ == state_announcement(state),
{
    BrokerMessage {
        topic: STATE_TOPIC.to_owned(),
        payload: state.payload(),
        at_least_once: true,
        retained: true,
    }
}

/// The two topics are different, so the discovery announcement is never
/// taken for a state.
pub proof fn lemma_topics_differ()
    ensures
        STATE_TOPIC@ != DISCOVERY_TOPIC@,
        forall|state: CameraState, text: Seq<char>|
            #![trigger state_announcement(state), discovery_announcement(text)]
            state_announcement(state) != discovery_announcement(text),
{
    reveal_strlit("homeassistant/binary_sensor/officecamera/state");
    reveal_strlit("homeassistant/binary_sensor/officecamera/config");
    assert(STATE_TOPIC@.len() == 46);
    assert(DISCOVERY_TOPIC@.len() == 47);
}

} // verus!
