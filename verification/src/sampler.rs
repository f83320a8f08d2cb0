//! The sampling loop's decisions: what one tick does with one sample.
//!
//! The loop is at rest until it sees the recording flag raised with a
//! sample in hand. That first sample becomes the baseline and gives no
//! event. Every later tick compares its sample with the baseline, gives
//! the events that separate them, and makes the sample the new baseline.
//! A tick that sees the flag lowered puts the loop at rest again.

use vstd::prelude::*;
use crate::differ::{detected, diff, event_views};
use crate::event::{InputEvent, InputEventView};
use crate::geometry::Rectangle;
use crate::sample::{RawInputSample, RawInputSampleView};

verus! {

/// The pause between two ticks, in milliseconds.
pub const POLL_INTERVAL_MS: u64 = 10;

/// The state that the loop carries from one tick to the next.
#[derive(Clone, Debug, PartialEq, Eq)]
pub enum LoopState {
    /// No baseline: the loop waits for a session's first sample.
    Idle,
    /// A session is under way; `last` is the sample of the previous tick.
    Active { last: RawInputSample },
}

/// The mathematical content of a [`LoopState`].
pub enum LoopStateView {
    Idle,
    Active { last: RawInputSampleView },
}

impl View for LoopState {
    type V = LoopStateView;

    open spec fn view(&self) -> LoopStateView {
        match self {
            LoopState::Idle => LoopStateView::Idle,
            LoopState::Active { last } => LoopStateView::Active { last: last@ },
        }
    }
}

/// The sample that stands for a failed read after `last`: the position of
/// `last`, nothing held.
pub open spec fn no_input_after(last: RawInputSampleView) -> RawInputSampleView {
    RawInputSampleView {
        position: last.position,
        buttons: Seq::<bool>::empty(),
        keys: Seq::<Seq<char>>::empty(),
    }
}

/// The sample that a tick works on: the reading if there is one, else the
/// sample that stands for a failed read, which needs a baseline.
pub open spec fn effective_sample(
    state: LoopStateView,
    reading: Option<RawInputSampleView>,
) -> Option<RawInputSampleView> {
    match (reading, state) {
        (Some(sample), _) => Some(sample),
        (None, LoopStateView::Active { last }) => Some(no_input_after(last)),
        (None, LoopStateView::Idle) => None,
    }
}

/// The state after a tick.
pub open spec fn next_state(
    state: LoopStateView,
    recording: bool,
    reading: Option<RawInputSampleView>,
) -> LoopStateView {
    match effective_sample(state, reading) {
        Some(sample) if recording => LoopStateView::Active { last: sample },
        _ => LoopStateView::Idle,
    }
}

/// The events that a tick gives.
pub open spec fn tick_events(
    state: LoopStateView,
    recording: bool,
    reading: Option<RawInputSampleView>,
    window_bounds: Option<Rectangle>,
) -> Seq<InputEventView> {
    match (state, effective_sample(state, reading)) {
        (LoopStateView::Active { last }, Some(sample)) if recording => detected(
            last,
            sample,
            window_bounds,
        ),
        _ => Seq::empty(),
    }
}

/// The contents of an optional sample.
pub open spec fn reading_view(reading: Option<RawInputSample>) -> Option<RawInputSampleView> {
    match reading {
        Some(sample) => Some(sample@),
        None => None,
    }
}

/// Runs one tick of the loop.
///
/// `recording` is the flag as read at the top of the tick. `reading` is
/// the sample taken for this tick, or `None` when the devices could not
/// be read. `window_bounds` is the host window's rectangle, when known.
/// Returns the state for the next tick and the events to log, in order.
pub fn step(
    state: LoopState,
    recording: bool,
    reading: Option<RawInputSample>,
    window_bounds: Option<Rectangle>,
) -> (outcome: (LoopState, Vec<InputEvent>))
    ensures
        outcome.0@ == next_state(state@, recording, reading_view(reading)),
        event_views(outcome.1@) == tick_events(
            state@,
            recording,
            reading_view(reading),
            window_bounds,
        ),
{
    if !recording {
        let quiet: Vec<InputEvent> = Vec::new();
        assert(event_views(quiet@) =~= Seq::<InputEventView>::empty());
        return (LoopState::Idle, quiet);
    }
    match state {
        LoopState::Idle => {
            let quiet: Vec<InputEvent> = Vec::new();
            assert(event_views(quiet@) =~= Seq::<InputEventView>::empty());
            match reading {
                Some(sample) => (LoopState::Active { last: sample }, quiet),
                None => (LoopState::Idle, quiet),
            }
        },
        LoopState::Active { last } => {
            let sample = match reading {
                Some(sample) => sample,
                None => RawInputSample::no_input(last.position),
            };
            let events = diff(&last, &sample, window_bounds);
            (LoopState::Active { last: sample }, events)
        },
    }
}

/// The first tick of a session gives no event, whatever it samples.
pub proof fn first_tick_is_silent(
    recording: bool,
    reading: Option<RawInputSampleView>,
    window_bounds: Option<Rectangle>,
)
    ensures
        tick_events(LoopStateView::Idle, recording, reading, window_bounds) == Seq::<
            InputEventView,
        >::empty(),
        reading is Some && recording ==> next_state(LoopStateView::Idle, recording, reading)
            == (LoopStateView::Active { last: reading->0 }),
{
}

/// A tick that sees the flag lowered gives no event and puts the loop at
/// rest.
pub proof fn lowered_flag_puts_loop_at_rest(
    state: LoopStateView,
    reading: Option<RawInputSampleView>,
    window_bounds: Option<Rectangle>,
)
    ensures
        tick_events(state, false, reading, window_bounds) == Seq::<InputEventView>::empty(),
        next_state(state, false, reading) == LoopStateView::Idle,
{
}

/// A failed read in a running session gives no event.
pub proof fn failed_read_detects_nothing(
    last: RawInputSampleView,
    window_bounds: Option<Rectangle>,
)
    ensures
        tick_events(LoopStateView::Active { last }, true, None, window_bounds) == Seq::<
            InputEventView,
        >::empty(),
{
    let sample = no_input_after(last);
    assert(sample.pressed() =~= Set::<int>::empty());
    assert(crate::differ::new_keys(last.keys, sample.keys) =~= Seq::<Seq<char>>::empty()) by {
        reveal(Seq::filter);
    }
    assert(detected(last, sample, window_bounds) =~= Seq::<InputEventView>::empty());
}

} // verus!
