//! Folding a drained batch of input events into the microphone state.
//!
//! Only absolute-axis events carry the mute signal; every other event kind
//! is ignored. Events are applied in batch order, so the last absolute-axis
//! event of a batch decides the state: last write wins, with no debouncing.

use vstd::prelude::*;

verus! {

/// The category of one input event, as far as this library cares: the
/// absolute-axis category that carries the mic signal, or anything else.
#[derive(Clone, Copy, PartialEq, Eq, Structural, Debug)]
pub enum EventKind {
    Absolute,
    Other,
}

/// One raw input event: its category and its integer value.
#[derive(Clone, Copy, PartialEq, Eq, Structural, Debug)]
pub struct MicEvent {
    pub kind: EventKind,
    pub value: i32,
}

/// The microphone state after applying a batch of events, in order, to the
/// state `initial`: each absolute-axis event overwrites the state with
/// `value != 0`; every other event leaves it unchanged.
pub open spec fn mic_state_after(initial: bool, events: Seq<MicEvent>) -> bool
    decreases events.len(),
{
    if events.len() == 0 {
        initial
    } else {
        let prior = mic_state_after(initial, events.drop_last());
        if events.last().kind is Absolute {
            events.last().value != 0
        } else {
            prior
        }
    }
}

/// Apply one drained batch of events to the current microphone state and
/// return the state that results: active exactly when the last absolute-axis
/// event of the batch had a non-zero value, or unchanged when the batch
/// holds no absolute-axis event.
pub fn fold_mic_events(initial: bool, events: &Vec<MicEvent>) -> (r: bool)
    ensures
        r == mic_state_after(initial, events@),
{
    let n = events.len();
    let mut state = initial;
    let mut i: usize = 0;
    while i < n
        invariant
            n == events@.len(),
            i <= n,
            state == mic_state_after(initial, events@.subrange(0, i as int)),
        decreases n - i,
    {
        let e = events[i];
        proof {
            assert(events@.subrange(0, i + 1 as int).drop_last() =~= events@.subrange(0, i as int));
            assert(events@.subrange(0, i + 1 as int).last() == events@[i as int]);
        }
        match e.kind {
            EventKind::Absolute => {
                state = e.value != 0;
            },
            EventKind::Other => {},
        }
        i = i + 1;
    }
    proof {
        assert(events@.subrange(0, n as int) =~= events@);
    }
    state
}

/// Last write wins: if `i` is the position of the last absolute-axis event
/// in a batch, the state after the batch is decided by that event's value
/// alone — whatever the earlier events and the initial state were.
pub proof fn lemma_last_absolute_wins(initial: bool, events: Seq<MicEvent>, i: int)
    requires
        0 <= i < events.len(),
        events[i].kind is Absolute,
        forall|j: int| i < j < events.len() ==> !(#[trigger] events[j].kind is Absolute),
    ensures
        mic_state_after(initial, events) == (events[i].value != 0),
    decreases events.len(),
{
    if i == events.len() - 1 {
    } else {
        assert(events.drop_last()[i] == events[i]);
        lemma_last_absolute_wins(initial, events.drop_last(), i);
    }
}

/// A batch without any absolute-axis event leaves the state untouched.
pub proof fn lemma_no_absolute_keeps_state(initial: bool, events: Seq<MicEvent>)
    requires
        forall|j: int| 0 <= j < events.len() ==> !(#[trigger] events[j].kind is Absolute),
    ensures
        mic_state_after(initial, events) == initial,
    decreases events.len(),
{
    if events.len() > 0 {
        lemma_no_absolute_keeps_state(initial, events.drop_last());
    }
}

} // verus!
