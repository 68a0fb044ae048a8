//! What holds of every run of the event loop.

use vstd::prelude::*;
use crate::coordinator::{
    action_for, announcements, confirmed_by, published, run, signal_of, signals_of, step,
    ActionModel, LoopEvent,
};
use crate::debounce::{gap, DebounceModel};
use crate::message::{state_announcement, MessageModel};
use crate::state::CameraState;

verus! {

/// No event carries a raw signal.
pub open spec fn all_silent(events: Seq<LoopEvent>) -> bool {
    forall|i: int| 0 <= i < events.len() ==> signal_of(#[trigger] events[i]) is None
}

/// Each confirmed transition is announced exactly once, in order, and
/// nothing else is published: what a run publishes are the announcements of
/// the transitions that the debouncer confirms among the run's raw signals,
/// and the loop state after the run is the debouncer after those signals.
pub proof fn lemma_each_transition_is_announced_once(state: DebounceModel, events: Seq<LoopEvent>)
    ensures
        run(state, events) == state.after(signals_of(events)),
        published(state, events) == announcements(state.transitions(signals_of(events))),
    decreases events.len(),
{
    if events.len() == 0 {
        assert(published(state, events) =~= announcements(state.transitions(signals_of(events))));
    } else {
        let head = events.first();
        let rest = events.drop_first();
        lemma_each_transition_is_announced_once(step(state, head), rest);
        match signal_of(head) {
            Some(signal) => {
                let signals = signals_of(events);
                assert(signals == seq![signal] + signals_of(rest));
                assert(signals.first() == signal);
                assert(signals.drop_first() =~= signals_of(rest));
                let tail = state.next(signal).transitions(signals_of(rest));
                if state.output(signal) is Some {
                    assert(state.transitions(signals) == seq![signal] + tail);
                    assert(announcements(seq![signal] + tail) =~= seq![
                        state_announcement(signal.state),
                    ] + announcements(tail));
                }
            },
            None => {},
        }
    }
}

/// Events that carry no raw signal (broker events, publish outcomes, detector
/// failures, idle ticks, device activity that is neither an open nor a close)
/// publish nothing and leave the loop state as it was, however many they are.
pub proof fn lemma_silent_events_change_nothing(state: DebounceModel, events: Seq<LoopEvent>)
    requires
        all_silent(events),
    ensures
        run(state, events) == state,
        published(state, events) == Seq::<MessageModel>::empty(),
    decreases events.len(),
{
    if events.len() > 0 {
        assert(events.first() == events[0]);
        assert forall|i: int| 0 <= i < events.drop_first().len() implies signal_of(
            #[trigger] events.drop_first()[i],
        ) is None by {
            assert(events.drop_first()[i] == events[i + 1]);
        }
        lemma_silent_events_change_nothing(state, events.drop_first());
    }
}

/// A loop that never sees device activity stays in `Off` and never
/// publishes a state.
pub proof fn lemma_without_activity_the_state_stays_off(window: nat, events: Seq<LoopEvent>)
    requires
        all_silent(events),
    ensures
        run(DebounceModel::initial(window), events).stable == CameraState::Off,
        published(DebounceModel::initial(window), events) == Seq::<MessageModel>::empty(),
{
    lemma_silent_events_change_nothing(DebounceModel::initial(window), events);
}

/// A confirmed transition is recorded whether or not its announcement
/// arrives: the outcome of the publish changes nothing, and the next signal
/// that leaves the recorded state a full window later is announced as usual.
pub proof fn lemma_failed_publish_keeps_the_transition(
    state: DebounceModel,
    event: LoopEvent,
    delivered: bool,
    later: LoopEvent,
)
    requires
        confirmed_by(state, event) is Some,
        signal_of(later) is Some,
        signal_of(later)->0.state != signal_of(event)->0.state,
        gap(signal_of(event)->0.at, signal_of(later)->0.at) >= state.window,
    ensures
        step(state, event).stable == confirmed_by(state, event)->0,
        step(step(state, event), LoopEvent::Published { delivered }) == step(state, event),
        action_for(step(state, event), LoopEvent::Published { delivered }) == ActionModel::Nothing,
        action_for(step(step(state, event), LoopEvent::Published { delivered }), later)
            == ActionModel::Publish(state_announcement(signal_of(later)->0.state)),
{
}

/// The first signal that differs from `Off` is announced at once, at
/// whatever moment it arrives.
pub proof fn lemma_first_differing_signal_is_announced(window: nat, event: LoopEvent)
    requires
        signal_of(event) is Some,
        signal_of(event)->0.state == CameraState::On,
    ensures
        action_for(DebounceModel::initial(window), event) == ActionModel::Publish(
            state_announcement(CameraState::On),
        ),
        step(DebounceModel::initial(window), event).stable == CameraState::On,
{
}

} // verus!
