//! What holds of every run of the debouncer.

use vstd::prelude::*;
use crate::debounce::{gap, DebounceModel, Signal};
use crate::state::CameraState;

verus! {

/// A burst: every signal of the sequence arrives less than one window after
/// each signal that came before it.
pub open spec fn within_one_window(signals: Seq<Signal>, window: nat) -> bool {
    forall|i: int, j: int|
        0 <= i < j < signals.len() ==> gap((#[trigger] signals[i]).at, (#[trigger] signals[j]).at)
            < window
}

/// Every signal of the sequence carries the same candidate.
pub open spec fn all_signal(signals: Seq<Signal>, state: CameraState) -> bool {
    forall|i: int| 0 <= i < signals.len() ==> (#[trigger] signals[i]).state == state
}

/// The tail of a burst is a burst, and each of its signals arrives less than
/// a window after the burst's first signal.
proof fn lemma_tail_of_burst(burst: Seq<Signal>, window: nat)
    requires
        burst.len() > 0,
        within_one_window(burst, window),
    ensures
        within_one_window(burst.drop_first(), window),
        forall|i: int|
            0 <= i < burst.drop_first().len() ==> gap(
                burst.first().at,
                (#[trigger] burst.drop_first()[i]).at,
            ) < window,
{
    let rest = burst.drop_first();
    assert(burst.first() == burst[0]);
    assert forall|i: int| 0 <= i < rest.len() implies gap(burst.first().at, (#[trigger] rest[i]).at)
        < window by {
        assert(rest[i] == burst[i + 1]);
    }
    assert forall|i: int, j: int| 0 <= i < j < rest.len() implies gap(
        (#[trigger] rest[i]).at,
        (#[trigger] rest[j]).at,
    ) < window by {
        assert(rest[i] == burst[i + 1]);
        assert(rest[j] == burst[j + 1]);
    }
}

/// All signals carry one candidate exactly when the first does and all of
/// the tail do.
proof fn lemma_all_signal_by_parts(signals: Seq<Signal>, state: CameraState)
    requires
        signals.len() > 0,
    ensures
        all_signal(signals, state) <==> signals.first().state == state && all_signal(
            signals.drop_first(),
            state,
        ),
{
    let rest = signals.drop_first();
    assert(signals.first() == signals[0]);
    if all_signal(signals, state) {
        assert forall|i: int| 0 <= i < rest.len() implies (#[trigger] rest[i]).state == state by {
            assert(rest[i] == signals[i + 1]);
        }
    }
    if signals.first().state == state && all_signal(rest, state) {
        assert forall|i: int| 0 <= i < signals.len() implies (#[trigger] signals[i]).state
            == state by {
            if i > 0 {
                assert(signals[i] == rest[i - 1]);
            }
        }
    }
}

/// A candidate equal to the confirmed state is never confirmed and never
/// restarts the timer, however much time has passed.
pub proof fn lemma_stable_candidate_is_ignored(d: DebounceModel, now: nat)
    ensures
        d.output(Signal { state: d.stable, at: now }) is None,
        d.next(Signal { state: d.stable, at: now }) == d,
{
}

/// Holding the confirmed state, for any length of time and any number of
/// signals, announces nothing and leaves the debouncer as it was.
pub proof fn lemma_holding_state_is_silent(d: DebounceModel, signals: Seq<Signal>)
    requires
        all_signal(signals, d.stable),
    ensures
        d.transitions(signals) == Seq::<Signal>::empty(),
        d.after(signals) == d,
    decreases signals.len(),
{
    if signals.len() > 0 {
        lemma_all_signal_by_parts(signals, d.stable);
        lemma_holding_state_is_silent(d, signals.drop_first());
    }
}

/// After a transition at `t`, signals that arrive less than a window later
/// are all suppressed.
pub proof fn lemma_quiet_inside_window(d: DebounceModel, t: nat, signals: Seq<Signal>)
    requires
        d.since == Some(t),
        forall|i: int| 0 <= i < signals.len() ==> gap(t, (#[trigger] signals[i]).at) < d.window,
    ensures
        d.transitions(signals) == Seq::<Signal>::empty(),
        d.after(signals) == d,
    decreases signals.len(),
{
    if signals.len() > 0 {
        let rest = signals.drop_first();
        assert(signals.first() == signals[0]);
        assert forall|i: int| 0 <= i < rest.len() implies gap(t, (#[trigger] rest[i]).at)
            < d.window by {
            assert(rest[i] == signals[i + 1]);
        }
        lemma_quiet_inside_window(d, t, rest);
    }
}

/// A burst inside one window confirms at most one transition. If it confirms
/// one, that transition leaves the prior state, and it equals the last signal
/// of the burst exactly when the last signal differs from the prior state.
pub proof fn lemma_burst_confirms_at_most_once(d: DebounceModel, burst: Seq<Signal>)
    requires
        within_one_window(burst, d.window),
    ensures
        d.transitions(burst).len() <= 1,
        d.transitions(burst).len() == 1 ==> d.transitions(burst)[0].state != d.stable,
        d.transitions(burst).len() == 1 ==> (d.transitions(burst)[0].state == burst.last().state
            <==> burst.last().state != d.stable),
        d.transitions(burst).len() == 1 ==> d.after(burst).stable == d.transitions(burst)[0].state,
        d.transitions(burst).len() == 0 ==> d.after(burst) == d,
    decreases burst.len(),
{
    if burst.len() > 0 {
        let head = burst.first();
        let rest = burst.drop_first();
        lemma_tail_of_burst(burst, d.window);
        if d.output(head) is Some {
            lemma_quiet_inside_window(d.next(head), head.at, rest);
            assert(d.transitions(burst) =~= seq![head]);
        } else {
            lemma_burst_confirms_at_most_once(d, rest);
            if rest.len() > 0 {
                assert(rest.last() == burst.last());
            }
        }
    }
}

/// When the window has passed at every signal of a burst, the burst confirms
/// a transition exactly when one of its signals leaves the confirmed state,
/// and the confirmed transition equals the burst's last signal exactly when
/// that last signal differs from the prior state.
pub proof fn lemma_settled_burst_follows_its_last_signal(d: DebounceModel, burst: Seq<Signal>)
    requires
        burst.len() > 0,
        within_one_window(burst, d.window),
        forall|i: int| 0 <= i < burst.len() ==> d.elapsed((#[trigger] burst[i]).at) >= d.window,
    ensures
        d.transitions(burst).len() == 0 <==> all_signal(burst, d.stable),
        (d.transitions(burst).len() == 1 && d.transitions(burst)[0].state == burst.last().state)
            <==> burst.last().state != d.stable,
    decreases burst.len(),
{
    let head = burst.first();
    let rest = burst.drop_first();
    assert(head == burst[0]);
    lemma_tail_of_burst(burst, d.window);
    lemma_all_signal_by_parts(burst, d.stable);
    if d.output(head) is Some {
        lemma_quiet_inside_window(d.next(head), head.at, rest);
        assert(d.transitions(burst) =~= seq![head]);
    } else if rest.len() > 0 {
        assert forall|i: int| 0 <= i < rest.len() implies d.elapsed((#[trigger] rest[i]).at)
            >= d.window by {
            assert(rest[i] == burst[i + 1]);
        }
        lemma_settled_burst_follows_its_last_signal(d, rest);
        assert(rest.last() == burst.last());
    } else {
        assert(burst.last() == head);
    }
}

/// Repeating one and the same signal confirms at most the one transition that
/// introduces that state, and none at all when that state is already
/// confirmed.
pub proof fn lemma_repeated_signal_confirms_at_most_once(
    d: DebounceModel,
    signals: Seq<Signal>,
    state: CameraState,
)
    requires
        all_signal(signals, state),
    ensures
        d.transitions(signals).len() <= 1,
        d.stable == state ==> d.transitions(signals).len() == 0,
        d.transitions(signals).len() == 1 ==> d.transitions(signals)[0].state == state
            && d.stable != state && d.after(signals).stable == state,
        d.transitions(signals).len() == 0 ==> d.after(signals) == d,
    decreases signals.len(),
{
    if signals.len() > 0 {
        let head = signals.first();
        let rest = signals.drop_first();
        lemma_all_signal_by_parts(signals, state);
        if d.output(head) is Some {
            lemma_holding_state_is_silent(d.next(head), rest);
            assert(d.transitions(signals) =~= seq![head]);
        } else {
            lemma_repeated_signal_confirms_at_most_once(d, rest, state);
        }
    }
}

/// In every run the confirmed state changes at most once per window and no
/// state is announced twice in a row: the first transition leaves the state
/// that was confirmed before and comes a full window after the transition
/// before the run, and each later transition leaves the state of the one
/// before it and comes a full window after it.
pub proof fn lemma_transitions_alternate_a_window_apart(d: DebounceModel, signals: Seq<Signal>)
    ensures
        d.transitions(signals).len() > 0 ==> d.transitions(signals)[0].state != d.stable
            && d.elapsed(d.transitions(signals)[0].at) >= d.window,
        forall|k: int|
            #![trigger d.transitions(signals)[k]]
            0 < k < d.transitions(signals).len() ==> d.transitions(signals)[k].state
                != d.transitions(signals)[k - 1].state && gap(
                d.transitions(signals)[k - 1].at,
                d.transitions(signals)[k].at,
            ) >= d.window,
    decreases signals.len(),
{
    if signals.len() > 0 {
        let head = signals.first();
        let tail = d.next(head).transitions(signals.drop_first());
        lemma_transitions_alternate_a_window_apart(d.next(head), signals.drop_first());
        if d.output(head) is Some {
            let all = d.transitions(signals);
            assert(all =~= seq![head] + tail);
            assert forall|k: int| 0 < k < all.len() implies (#[trigger] all[k]).state != all[k
                - 1].state && gap(all[k - 1].at, all[k].at) >= d.window by {
                assert(all[k] == tail[k - 1]);
                if k > 1 {
                    assert(all[k - 1] == tail[k - 2]);
                }
            }
        }
    }
}

/// After a run the confirmed state is the state of the last transition, or
/// the prior state when nothing was confirmed; the window never changes.
pub proof fn lemma_run_ends_in_last_transition(d: DebounceModel, signals: Seq<Signal>)
    ensures
        d.after(signals).window == d.window,
        d.transitions(signals).len() == 0 ==> d.after(signals) == d,
        d.transitions(signals).len() > 0 ==> d.after(signals).stable == d.transitions(
            signals,
        ).last().state && d.after(signals).since == Some(d.transitions(signals).last().at),
    decreases signals.len(),
{
    if signals.len() > 0 {
        let head = signals.first();
        let tail = d.next(head).transitions(signals.drop_first());
        lemma_run_ends_in_last_transition(d.next(head), signals.drop_first());
        if d.output(head) is Some {
            assert(d.transitions(signals) =~= seq![head] + tail);
            if tail.len() > 0 {
                assert(d.transitions(signals).last() == tail.last());
            }
        }
    }
}

/// Running two sequences one after the other is running their concatenation.
pub proof fn lemma_run_in_two_parts(d: DebounceModel, first: Seq<Signal>, second: Seq<Signal>)
    ensures
        d.after(first + second) == d.after(first).after(second),
        d.transitions(first + second) == d.transitions(first) + d.after(first).transitions(second),
    decreases first.len(),
{
    if first.len() == 0 {
        assert(first + second =~= second);
        assert(d.transitions(first) + d.after(first).transitions(second) =~= d.transitions(second));
    } else {
        let whole = first + second;
        assert(whole.first() == first.first());
        assert(whole.drop_first() =~= first.drop_first() + second);
        lemma_run_in_two_parts(d.next(first.first()), first.drop_first(), second);
        assert(d.transitions(whole) =~= d.transitions(first) + d.after(first).transitions(second));
    }
}

/// A burst that follows a transition inside its window confirms nothing; the
/// first signal that leaves the confirmed state once the window has passed is
/// then confirmed, and it is the only transition of the whole run.
pub proof fn lemma_burst_is_held_back_until_the_window_has_passed(
    d: DebounceModel,
    t: nat,
    burst: Seq<Signal>,
    settled: Signal,
)
    requires
        d.since == Some(t),
        forall|i: int| 0 <= i < burst.len() ==> gap(t, (#[trigger] burst[i]).at) < d.window,
        settled.state != d.stable,
        gap(t, settled.at) >= d.window,
    ensures
        d.transitions(burst) == Seq::<Signal>::empty(),
        d.transitions(burst.push(settled)) == seq![settled],
        d.after(burst.push(settled)).stable == settled.state,
        d.after(burst.push(settled)).since == Some(settled.at),
{
    let last = seq![settled];
    lemma_quiet_inside_window(d, t, burst);
    lemma_run_in_two_parts(d, burst, last);
    assert(burst.push(settled) =~= burst + last);
    assert(last.first() == settled);
    assert(last.drop_first() =~= Seq::<Signal>::empty());
    assert(d.next(settled).transitions(last.drop_first()) =~= Seq::<Signal>::empty());
    assert(d.transitions(last) =~= seq![settled]);
    assert(d.after(last) == d.next(settled).after(last.drop_first()));
    assert(d.transitions(burst.push(settled)) =~= seq![settled]);
}

} // verus!
