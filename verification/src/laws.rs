//! What holds of handles and sets in every state.
use crate::job::Disposal;
use crate::job::JobState;
use crate::jobs::pending;
use crate::signal::Signal;
use vstd::prelude::*;

verus! {

/// Looking at the channel changes nothing but what is known of completion:
/// whatever a run of looks shows, the handle keeps its channel and its
/// abandoned flag, and it is known to be complete afterwards exactly if it
/// was before or one of the looks showed the channel closed.
pub proof fn looks_only_record_completion(state: JobState, signals: Seq<Signal>)
    ensures
        state.observe_all(signals).link == state.link,
        state.observe_all(signals).abandoned == state.abandoned,
        state.observe_all(signals).completed == (state.completed || signals.contains(
            Signal::Closed,
        )),
    decreases signals.len(),
{
    if signals.len() > 0 {
        let earlier = signals.drop_last();
        looks_only_record_completion(state, earlier);
        if signals.contains(Signal::Closed) {
            let i = choose|i: int| 0 <= i < signals.len() && signals[i] == Signal::Closed;
            if i < earlier.len() {
                assert(earlier[i] == Signal::Closed);
            }
        }
    }
}

/// Completion is final: a handle that is known to be complete stays so
/// through any further looks at its channel, whatever they show.
pub proof fn completion_is_final(state: JobState, signals: Seq<Signal>)
    requires
        state.completed,
    ensures
        state.observe_all(signals).completed,
{
    looks_only_record_completion(state, signals);
}

/// Once the channel of a handle has been seen closed, every later look says
/// that the job is complete, and letting go of the handle is quiet.
pub proof fn closed_channel_resolves(
    state: JobState,
    later: Seq<Signal>,
    last: Signal,
    unwinding: bool,
)
    ensures
        state.observe(Signal::Closed).observe_all(later).completed,
        state.observe(Signal::Closed).observe_all(later).disposal(last, unwinding)
            == Disposal::Quiet,
{
    completion_is_final(state.observe(Signal::Closed), later);
}

/// A handle is reported as orphaned exactly when it is let go while it is
/// neither abandoned nor known to be complete, its channel is still open,
/// and no failure is under way.
pub proof fn orphaned_iff_unresolved(state: JobState, signal: Signal, unwinding: bool)
    ensures
        state.disposal(signal, unwinding) == Disposal::Orphaned <==> !state.abandoned
            && !state.completed && signal == Signal::Open && !unwinding,
{
}

/// An abandoned handle is let go quietly, whatever its channel shows and
/// whatever was seen of it before or after it was abandoned.
pub proof fn abandoned_is_quiet(
    state: JobState,
    later: Seq<Signal>,
    last: Signal,
    unwinding: bool,
)
    ensures
        state.abandon().observe_all(later).disposal(last, unwinding) == Disposal::Quiet,
{
    looks_only_record_completion(state.abandon(), later);
}

/// Tearing a set down reports nothing: it abandons each handle that the set
/// holds, and whatever state that handle is in and whatever its channel
/// shows, letting go of it is then quiet.
pub proof fn teardown_is_quiet(states: Seq<JobState>, i: int, last: Signal, unwinding: bool)
    requires
        0 <= i < states.len(),
    ensures
        states[i].abandon().disposal(last, unwinding) == Disposal::Quiet,
{
}

/// What a sweep leaves in a set are handles that it held before, none of
/// them known to be complete, and no more of them than before.
pub proof fn pending_are_open(states: Seq<JobState>)
    ensures
        pending(states).len() <= states.len(),
        forall|i: int|
            0 <= i < pending(states).len() ==> !(#[trigger] pending(states)[i]).completed
                && states.contains(pending(states)[i]),
{
    let open = |state: JobState| !state.completed;
    states.lemma_filter_len(open);
    assert forall|i: int| 0 <= i < pending(states).len() implies !(#[trigger] pending(
        states,
    )[i]).completed && states.contains(pending(states)[i]) by {
        states.lemma_filter_pred(open, i);
        lemma_filter_is_subset(states, i);
    }
}

/// Every handle that is still pending is one of those that were given.
proof fn lemma_filter_is_subset(states: Seq<JobState>, i: int)
    requires
        0 <= i < pending(states).len(),
    ensures
        states.contains(pending(states)[i]),
    decreases states.len(),
{
    reveal(Seq::filter);
    if states.len() > 0 {
        let earlier = states.drop_last();
        if i < pending(earlier).len() {
            lemma_filter_is_subset(earlier, i);
            let k = choose|k: int| 0 <= k < earlier.len() && earlier[k] == pending(earlier)[i];
            assert(states[k] == pending(states)[i]);
        } else {
            assert(states.last() == pending(states)[i]);
        }
    }
}

} // verus!
