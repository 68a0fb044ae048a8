//! The event loop's decisions: what each event does to the loop state and
//! what is to be published in answer to it.
//!
//! The loop itself waits for the detector, the broker connection and the idle
//! timer, hands each event to [`Coordinator::handle`] and carries out the
//! action that comes back.

use vstd::prelude::*;
use crate::debounce::{DebounceModel, Debouncer, RawSignal, Signal};
use crate::detector::{candidate_of, candidate_of_holders, poll_signal, watch_signal};
use crate::discovery::{DiscoveryDescriptor, EncodingError};
use crate::schema::is_discovery_text;
use crate::json::json_text;
use crate::message::{
    discovery_announcement, state_announcement, state_message, BrokerMessage, MessageModel,
};
use crate::state::CameraState;

verus! {

/// What the loop was woken by.
#[derive(Clone, Copy, Debug, PartialEq, Eq)]
pub enum LoopEvent {
    /// Activity on a watched device node, with the event's mask and the
    /// moment at which it was observed.
    Activity { mask: u32, at: u64 },
    /// A poll, made at `at`, found `count` processes holding a device node open.
    Holders { count: usize, at: u64 },
    /// The detector could not produce a signal this time. With either
    /// strategy such a failure is absorbed: the loop goes on, and the
    /// detector is asked again.
    DetectorFailure,
    /// An inbound event or an acknowledgment from the broker connection.
    Broker,
    /// The broker client accepted the last message, or failed to.
    Published { delivered: bool },
    /// The idle timer fired.
    Tick,
}

/// What the loop is to do next.
#[derive(Clone, Debug, PartialEq, Eq)]
pub enum LoopAction {
    /// Hand this message to the broker.
    Publish(BrokerMessage),
    /// Go on waiting.
    Nothing,
}

/// A loop action as a mathematical value.
pub enum ActionModel {
    Publish(MessageModel),
    Nothing,
}

impl View for LoopAction {
    type V = ActionModel;

    open spec fn view(&self) -> ActionModel {
        match self {
            LoopAction::Publish(message) => ActionModel::Publish(message@),
            LoopAction::Nothing => ActionModel::Nothing,
        }
    }
}

/// The raw signal that an event carries. Only the detector's two kinds of
/// observation carry one, and device activity only when it is an open or a
/// close.
pub open spec fn signal_of(event: LoopEvent) -> Option<Signal> {
    match event {
        LoopEvent::Activity { mask, at } => match candidate_of(mask) {
            Some(state) => Some(Signal { state, at: at as nat }),
            None => None,
        },
        LoopEvent::Holders { count, at } => Some(
            Signal { state: candidate_of_holders(count as nat), at: at as nat },
        ),
        _ => None,
    }
}

/// The loop state after an event: a raw signal goes through the debouncer,
/// every other event leaves the state as it is.
pub open spec fn step(state: DebounceModel, event: LoopEvent) -> DebounceModel {
    match signal_of(event) {
        Some(signal) => state.next(signal),
        None => state,
    }
}

/// The transition that an event confirms, if it confirms one.
pub open spec fn confirmed_by(state: DebounceModel, event: LoopEvent) -> Option<CameraState> {
    match signal_of(event) {
        Some(signal) => state.output(signal),
        None => None,
    }
}

/// The action that answers an event: a confirmed transition is announced,
/// and nothing else is ever published.
pub open spec fn action_for(state: DebounceModel, event: LoopEvent) -> ActionModel {
    match confirmed_by(state, event) {
        Some(confirmed) => ActionModel::Publish(state_announcement(confirmed)),
        None => ActionModel::Nothing,
    }
}

/// The loop state after a sequence of events, taken in order.
pub open spec fn run(state: DebounceModel, events: Seq<LoopEvent>) -> DebounceModel
    decreases events.len(),
{
    if events.len() == 0 {
        state
    } else {
        run(step(state, events.first()), events.drop_first())
    }
}

/// The messages published in answer to a sequence of events, in order.
pub open spec fn published(state: DebounceModel, events: Seq<LoopEvent>) -> Seq<MessageModel>
    decreases events.len(),
{
    if events.len() == 0 {
        Seq::empty()
    } else {
        let rest = published(step(state, events.first()), events.drop_first());
        match action_for(state, events.first()) {
            ActionModel::Publish(message) => seq![message] + rest,
            ActionModel::Nothing => rest,
        }
    }
}

/// The raw signals that a sequence of events carries, in order.
pub open spec fn signals_of(events: Seq<LoopEvent>) -> Seq<Signal>
    decreases events.len(),
{
    if events.len() == 0 {
        Seq::empty()
    } else {
        match signal_of(events.first()) {
            Some(signal) => seq![signal] + signals_of(events.drop_first()),
            None => signals_of(events.drop_first()),
        }
    }
}

/// The state announcement of each transition of a sequence, in order.
pub open spec fn announcements(transitions: Seq<Signal>) -> Seq<MessageModel> {
    transitions.map_values(|t: Signal| state_announcement(t.state))
}

/// The loop state: the debouncer, owned by the loop alone.
#[derive(Clone, Copy, Debug, PartialEq, Eq)]
pub struct Coordinator {
    debouncer: Debouncer,
}

impl View for Coordinator {
    type V = DebounceModel;

    closed spec fn view(&self) -> DebounceModel {
        self.debouncer@
    }
}

impl Coordinator {
    /// The loop state at startup: `Off` is confirmed, and the first differing
    /// signal will be announced without waiting for a window to pass.
    pub fn new(window: u64) -> (coordinator: Coordinator)
        ensures
            coordinator@ == DebounceModel::initial(window as nat),
    {
        Coordinator { debouncer: Debouncer::new(window) }
    }

    /// Starts the loop: the initial state, and the discovery announcement to
    /// publish once. The announcement is best effort: when the descriptor
    /// cannot be written as text the loop starts all the same.
    pub fn start(window: u64, descriptor: &DiscoveryDescriptor) -> (started: (
        Coordinator,
        Result<BrokerMessage, EncodingError>,
    ))
        ensures
            started.0@ == DebounceModel::initial(window as nat),
            match json_text(descriptor@.document()) {
                Some(text) => started.1 matches Ok(message) && message@ == discovery_announcement(
                    text,
                ),
                None => started.1 is Err,
            },
            started.1 matches Ok(message) ==> is_discovery_text(message.payload@),
    {
        (Coordinator::new(window), descriptor.message())
    }

    /// The last confirmed state.
    pub fn state(&self) -> (state: CameraState)
        ensures
            state == self@.stable,
    {
        self.debouncer.stable()
    }

    /// The debouncer that the loop owns.
    pub fn debouncer(&self) -> (debouncer: &Debouncer)
        ensures
            debouncer@ == self@,
    {
        &self.debouncer
    }

    /// Takes one event and says what to do. A raw signal is fed to the
    /// debouncer, and a transition that it confirms is announced; the
    /// confirmed state is recorded whether or not the announcement will
    /// arrive. Broker events, publish outcomes, detector failures and idle
    /// ticks change nothing and publish nothing.
    pub fn handle(&mut self, event: LoopEvent) -> (action: LoopAction)
        ensures
            final(self)@ == step(old(self)@, event),
            action@ == action_for(old(self)@, event),
    {
        let signal: Option<RawSignal> = match event {
            LoopEvent::Activity { mask, at } => watch_signal(mask, at),
            LoopEvent::Holders { count, at } => Some(poll_signal(count, at)),
            _ => None,
        };
        match signal {
            Some(raw) => match self.debouncer.observe(raw) {
                Some(confirmed) => LoopAction::Publish(state_message(confirmed)),
                None => LoopAction::Nothing,
            },
            None => LoopAction::Nothing,
        }
    }
}

} // verus!
