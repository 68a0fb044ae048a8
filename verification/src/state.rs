//! The binary state that the daemon reports.

use vstd::prelude::*;

verus! {

/// Whether the capture device is currently in use.
#[derive(Clone, Copy, Debug, PartialEq, Eq, Structural)]
pub enum CameraState {
    On,
    Off,
}

impl CameraState {
    /// The text that announces this state on the state topic.
    pub open spec fn payload_text(self) -> Seq<char> {
        match self {
            CameraState::On => "ON"@,
            CameraState::Off => "OFF"@,
        }
    }

    /// The payload that announces this state on the state topic.
    pub fn payload(self) -> (text: String)
        ensures
            text@ == self.payload_text(),
    {
        match self {
            CameraState::On => "ON".to_owned(),
            CameraState::Off => "OFF".to_owned(),
        }
    }
}

/// The two payloads are different texts, so a subscriber can tell the states apart.
pub proof fn lemma_payloads_differ()
    ensures
        CameraState::On.payload_text() != CameraState::Off.payload_text(),
        CameraState::On.payload_text() =~= seq!['O', 'N'],
        CameraState::Off.payload_text() =~= seq!['O', 'F', 'F'],
{
    reveal_strlit("ON");
    reveal_strlit("OFF");
    assert("ON"@.len() == 2);
    assert("OFF"@.len() == 3);
}

} // verus!
