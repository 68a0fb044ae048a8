//! The debouncer: it collapses bursts of raw signals into confirmed transitions.
//!
//! Time is counted in ticks of a monotonic clock that the caller reads; the
//! settle window is given in the same unit.

use vstd::prelude::*;
use crate::state::CameraState;

verus! {

/// A candidate state together with the moment at which it was observed.
#[derive(Clone, Copy, Debug, PartialEq, Eq, Structural)]
pub struct RawSignal {
    pub state: CameraState,
    pub at: u64,
}

/// A raw signal as a mathematical value.
pub struct Signal {
    pub state: CameraState,
    pub at: nat,
}

impl View for RawSignal {
    type V = Signal;

    open spec fn view(&self) -> Signal {
        Signal { state: self.state, at: self.at as nat }
    }
}

/// Time between two clock readings, zero when the later one is not later.
pub open spec fn gap(earlier: nat, later: nat) -> nat {
    if later >= earlier {
        (later - earlier) as nat
    } else {
        0
    }
}

/// The decision rule: a candidate is confirmed exactly when a full window has
/// elapsed since the last confirmed transition and the candidate differs from
/// the last confirmed state.
pub open spec fn confirmed(
    candidate: CameraState,
    elapsed: nat,
    window: nat,
    stable: CameraState,
) -> Option<CameraState> {
    if elapsed >= window && candidate != stable {
        Some(candidate)
    } else {
        None
    }
}

/// Decides whether `candidate` becomes the new confirmed state.
pub fn confirm(candidate: CameraState, elapsed: u64, window: u64, stable: CameraState) -> (decision:
    Option<CameraState>)
    ensures
        decision == confirmed(candidate, elapsed as nat, window as nat, stable),
{
    if elapsed >= window && candidate != stable {
        Some(candidate)
    } else {
        None
    }
}

/// The debouncer as a mathematical value: the settle window, the last
/// confirmed state, and the moment of the last confirmed transition, if there
/// was one.
pub struct DebounceModel {
    pub window: nat,
    pub stable: CameraState,
    pub since: Option<nat>,
}

impl DebounceModel {
    /// The state in which a debouncer starts: `Off` is confirmed and no
    /// transition has happened yet.
    pub open spec fn initial(window: nat) -> DebounceModel {
        DebounceModel { window, stable: CameraState::Off, since: None }
    }

    /// Time elapsed at `now` since the last confirmed transition. Before the
    /// first transition a full window counts as elapsed; a clock reading that
    /// lies before the last transition counts as no time at all.
    pub open spec fn elapsed(self, now: nat) -> nat {
        match self.since {
            None => self.window,
            Some(t) => gap(t, now),
        }
    }

    /// The transition that `signal` confirms, if it confirms one.
    pub open spec fn output(self, signal: Signal) -> Option<CameraState> {
        confirmed(signal.state, self.elapsed(signal.at), self.window, self.stable)
    }

    /// The debouncer after `signal`: a confirmed candidate becomes the stable
    /// state and restarts the timer, anything else changes nothing.
    pub open spec fn next(self, signal: Signal) -> DebounceModel {
        if self.output(signal) is Some {
            DebounceModel { window: self.window, stable: signal.state, since: Some(signal.at) }
        } else {
            self
        }
    }

    /// The debouncer after a whole sequence of signals, taken in order.
    pub open spec fn after(self, signals: Seq<Signal>) -> DebounceModel
        decreases signals.len(),
    {
        if signals.len() == 0 {
            self
        } else {
            self.next(signals.first()).after(signals.drop_first())
        }
    }

    /// The signals of a sequence that were confirmed as transitions, in order.
    pub open spec fn transitions(self, signals: Seq<Signal>) -> Seq<Signal>
        decreases signals.len(),
    {
        if signals.len() == 0 {
            Seq::empty()
        } else {
            let rest = self.next(signals.first()).transitions(signals.drop_first());
            if self.output(signals.first()) is Some {
                seq![signals.first()] + rest
            } else {
                rest
            }
        }
    }
}

/// The largest tick count, as a number of nanoseconds.
pub const LAST_TICK: u128 = 0xffff_ffff_ffff_ffff;

/// A span of nanoseconds in ticks, for a clock that ticks once a nanosecond:
/// the span itself, or the longest span that the clock can count when the
/// span is longer than that.
pub open spec fn ticks_of(nanos: nat) -> nat {
    if nanos <= LAST_TICK {
        nanos
    } else {
        LAST_TICK as nat
    }
}

/// Counts a span of nanoseconds in ticks.
pub fn ticks(nanos: u128) -> (count: u64)
    ensures
        count == ticks_of(nanos as nat),
{
    if nanos <= LAST_TICK {
        nanos as u64
    } else {
        u64::MAX
    }
}

/// The debouncer's state: the settle window, the last confirmed state and the
/// moment of the last confirmed transition.
#[derive(Clone, Copy, Debug, PartialEq, Eq)]
pub struct Debouncer {
    window: u64,
    stable: CameraState,
    since: Option<u64>,
}

impl View for Debouncer {
    type V = DebounceModel;

    closed spec fn view(&self) -> DebounceModel {
        DebounceModel {
            window: self.window as nat,
            stable: self.stable,
            since: match self.since {
                Some(t) => Some(t as nat),
                None => None,
            },
        }
    }
}

impl Debouncer {
    /// A debouncer with the given window. `Off` is the confirmed state, and the
    /// first differing signal is confirmed without waiting.
    pub fn new(window: u64) -> (debouncer: Debouncer)
        ensures
            debouncer@ == DebounceModel::initial(window as nat),
    {
        Debouncer { window, stable: CameraState::Off, since: None }
    }

    /// The settle window.
    pub fn window(&self) -> (window: u64)
        ensures
            window == self@.window,
    {
        self.window
    }

    /// The last confirmed state.
    pub fn stable(&self) -> (state: CameraState)
        ensures
            state == self@.stable,
    {
        self.stable
    }

    /// The moment of the last confirmed transition, if there was one.
    pub fn last_transition(&self) -> (since: Option<u64>)
        ensures
            match since {
                Some(t) => self@.since == Some(t as nat),
                None => self@.since is None,
            },
    {
        self.since
    }

    /// Time elapsed at `now` since the last confirmed transition.
    pub fn elapsed(&self, now: u64) -> (ticks: u64)
        ensures
            ticks == self@.elapsed(now as nat),
    {
        match self.since {
            None => self.window,
            Some(t) => if now >= t {
                now - t
            } else {
                0
            },
        }
    }

    /// Feeds one raw signal to the debouncer and returns the transition that
    /// it confirms, if any.
    pub fn observe(&mut self, signal: RawSignal) -> (transition: Option<CameraState>)
        ensures
            transition == old(self)@.output(signal@),
            final(self)@ == old(self)@.next(signal@),
    {
        let decision = confirm(signal.state, self.elapsed(signal.at), self.window, self.stable);
        if decision.is_some() {
            self.stable = signal.state;
            self.since = Some(signal.at);
        }
        decision
    }
}

} // verus!
