//! The state detector: what a piece of device activity says about the state.
//!
//! Two strategies produce raw signals. The watch-based one turns each
//! open/close event on a device node into a candidate; the poll-based one
//! looks, at intervals, at how many processes hold a device node open. Both
//! hand the debouncer a candidate with the moment at which it was observed.

use vstd::prelude::*;
use crate::debounce::RawSignal;
use crate::state::CameraState;

verus! {

/// The naming pattern of the device nodes that are watched.
pub const DEVICE_PATTERN: &'static str = "/dev/video*";

/// Event bit: a file opened for writing was closed.
pub const CLOSE_WRITE: u32 = 0x0000_0008;

/// Event bit: a file not opened for writing was closed.
pub const CLOSE_NOWRITE: u32 = 0x0000_0010;

/// Event bit: a file was opened.
pub const OPEN: u32 = 0x0000_0020;

/// The events in which the watch registers interest: every open and both
/// kinds of close.
pub const WATCH_MASK: u32 = 0x0000_0038;

/// The candidate that a device-node event stands for. An event that is
/// exactly one open stands for `On`, one that is exactly one close, of either
/// kind, for `Off`; any other event says nothing about the state.
pub open spec fn candidate_of(mask: u32) -> Option<CameraState> {
    if mask == OPEN {
        Some(CameraState::On)
    } else if mask == CLOSE_NOWRITE || mask == CLOSE_WRITE {
        Some(CameraState::Off)
    } else {
        None
    }
}

/// Reads the candidate off the mask of a device-node event.
pub fn classify(mask: u32) -> (candidate: Option<CameraState>)
    ensures
        candidate == candidate_of(mask),
{
    if mask == OPEN {
        Some(CameraState::On)
    } else if mask == CLOSE_NOWRITE || mask == CLOSE_WRITE {
        Some(CameraState::Off)
    } else {
        None
    }
}

/// The raw signal of the watch-based strategy for an event observed at `at`.
pub fn watch_signal(mask: u32, at: u64) -> (signal: Option<RawSignal>)
    ensures
        match candidate_of(mask) {
            Some(state) => signal == Some(RawSignal { state, at }),
            None => signal is None,
        },
{
    match classify(mask) {
        Some(state) => Some(RawSignal { state, at }),
        None => None,
    }
}

/// The candidate that a poll stands for: the device is in use exactly when
/// at least one process holds it open.
pub open spec fn candidate_of_holders(holders: nat) -> CameraState {
    if holders > 0 {
        CameraState::On
    } else {
        CameraState::Off
    }
}

/// The raw signal of the poll-based strategy for a poll made at `at` that
/// found `holders` processes holding a device node open.
pub fn poll_signal(holders: usize, at: u64) -> (signal: RawSignal)
    ensures
        signal == (RawSignal { state: candidate_of_holders(holders as nat), at }),
{
    if holders > 0 {
        RawSignal { state: CameraState::On, at }
    } else {
        RawSignal { state: CameraState::Off, at }
    }
}

/// The watch asks for exactly the three events that carry a candidate, and
/// every event that carries a candidate is one that the watch asked for.
pub proof fn lemma_watch_covers_candidates(mask: u32)
    ensures
        WATCH_MASK == OPEN | CLOSE_WRITE | CLOSE_NOWRITE,
        candidate_of(mask) is Some ==> mask & WATCH_MASK == mask && mask != 0,
{
    assert(0x38u32 == 0x20u32 | 0x08u32 | 0x10u32) by (bit_vector);
    assert(0x20u32 & 0x38u32 == 0x20u32) by (bit_vector);
    assert(0x10u32 & 0x38u32 == 0x10u32) by (bit_vector);
    assert(0x08u32 & 0x38u32 == 0x08u32) by (bit_vector);
}

} // verus!
