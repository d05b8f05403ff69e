//! Laws over sequences of calls on a builder.
//!
//! A run of calls is described by the state of the builder after each call,
//! each state related to the one before by what the call's contract says.
//! What the calls return follows from the same contracts: `len` returns the
//! number of slots, and `finish` and `finish_cloned` return an array that
//! `holds` the slots of the state they are called in (with that many slots and
//! the builder's column type). Arrays are described by their contents, never
//! compared as values: two arrays with the same contents may differ in their
//! buffers' capacities and addresses.
use vstd::prelude::*;

use arrow_data::ArrayData;

use crate::traits::ArrowBuilder;

verus! {

/// A call on a builder of values of type `T`.
pub enum Call<T> {
    AppendValue(T),
    AppendOption(Option<T>),
    Len,
    FinishCloned,
    Finish,
}

/// What the contract of `call` says of the builder `before` and `after` it.
pub open spec fn call_step<T, B: ArrowBuilder<T>>(before: B, call: Call<T>, after: B) -> bool {
    match call {
        Call::AppendValue(v) => after.inv() && after.slots() == before.slots().push(Some(v)),
        Call::AppendOption(v) => after.inv() && after.slots() == before.slots().push(v),
        Call::Len => after == before,
        Call::FinishCloned => after == before,
        Call::Finish => after.inv() && after.slots() == Seq::<Option<T>>::empty(),
    }
}

/// The builder just before call `i` of a run from `start`.
pub open spec fn state_before<B>(start: B, states: Seq<B>, i: int) -> B {
    if i == 0 {
        start
    } else {
        states[i - 1]
    }
}

/// `states[i]` is the builder after `calls[i]`, in a run of calls from `start`.
pub open spec fn runs<T, B: ArrowBuilder<T>>(start: B, calls: Seq<Call<T>>, states: Seq<B>) -> bool {
    &&& states.len() == calls.len()
    &&& forall|i: int|
        0 <= i < calls.len() ==> call_step(state_before(start, states, i), #[trigger] calls[i], states[i])
}

/// The slots of a builder that held `start` after the calls.
pub open spec fn slots_after<T>(start: Seq<Option<T>>, calls: Seq<Call<T>>) -> Seq<Option<T>>
    decreases calls.len(),
{
    if calls.len() == 0 {
        start
    } else {
        let before = slots_after(start, calls.drop_last());
        match calls.last() {
            Call::AppendValue(v) => before.push(Some(v)),
            Call::AppendOption(v) => before.push(v),
            Call::Finish => Seq::empty(),
            _ => before,
        }
    }
}

/// The number of appends among the calls since the last `Finish`.
pub open spec fn appends_since_finish<T>(calls: Seq<Call<T>>) -> nat
    decreases calls.len(),
{
    if calls.len() == 0 {
        0
    } else {
        match calls.last() {
            Call::AppendValue(_) => appends_since_finish(calls.drop_last()) + 1,
            Call::AppendOption(_) => appends_since_finish(calls.drop_last()) + 1,
            Call::Finish => 0,
            _ => appends_since_finish(calls.drop_last()),
        }
    }
}

/// After a run, the builder holds `slots_after` the calls.
pub proof fn lemma_run_slots<T, B: ArrowBuilder<T>>(start: B, calls: Seq<Call<T>>, states: Seq<B>)
    requires
        runs(start, calls, states),
    ensures
        state_before(start, states, calls.len() as int).slots() == slots_after(start.slots(), calls),
    decreases calls.len(),
{
    if calls.len() > 0 {
        let n = calls.len() - 1;
        assert(runs(start, calls.drop_last(), states.drop_last())) by {
            assert forall|i: int| 0 <= i < calls.drop_last().len() implies call_step(
                state_before(start, states.drop_last(), i),
                #[trigger] calls.drop_last()[i],
                states.drop_last()[i],
            ) by {
                assert(calls.drop_last()[i] == calls[i]);
                assert(state_before(start, states.drop_last(), i) == state_before(start, states, i));
            }
        }
        lemma_run_slots(start, calls.drop_last(), states.drop_last());
        assert(state_before(start, states.drop_last(), n) == state_before(start, states, n));
        assert(call_step(state_before(start, states, n), calls[n], states[n]));
        assert(calls.last() == calls[n]);
    }
}

/// With no slots to start with, the slots after the calls are the appends
/// since the last `Finish`.
pub proof fn lemma_slots_after_len<T>(start: Seq<Option<T>>, calls: Seq<Call<T>>)
    requires
        start.len() == 0,
    ensures
        slots_after(start, calls).len() == appends_since_finish(calls),
    decreases calls.len(),
{
    if calls.len() > 0 {
        lemma_slots_after_len(start, calls.drop_last());
    }
}

/// Law: from a builder just made (by `new_builder`, `new_builder_with_capacity`
/// or `new_with_capacity`, whatever the capacity), `len` after any calls
/// returns the number of appends since the last `finish`: `len` and
/// `finish_cloned` change nothing.
pub proof fn law_len_counts_appends<T, B: ArrowBuilder<T>>(
    start: B,
    calls: Seq<Call<T>>,
    states: Seq<B>,
)
    requires
        start.slots() == Seq::<Option<T>>::empty(),
        runs(start, calls, states),
    ensures
        state_before(start, states, calls.len() as int).slots().len() == appends_since_finish(
            calls,
        ),
{
    lemma_run_slots(start, calls, states);
    lemma_slots_after_len(start.slots(), calls);
}

/// Law: the capacity a builder was made with changes nothing but what it
/// reserves: two builders that hold the same slots (as any two just made do,
/// `new_builder` and `new_with_capacity(0)` among them) hold the same slots
/// after the same calls, so `len` returns the same and `finish` and
/// `finish_cloned` return arrays with the same contents: an array holds what
/// one of them finishes exactly when it holds what the other finishes.
pub proof fn law_capacity_only_reserves<T, B: ArrowBuilder<T>>(
    a: B,
    b: B,
    calls: Seq<Call<T>>,
    states_a: Seq<B>,
    states_b: Seq<B>,
)
    requires
        a.slots() == b.slots(),
        runs(a, calls, states_a),
        runs(b, calls, states_b),
    ensures
        state_before(a, states_a, calls.len() as int).slots() == state_before(
            b,
            states_b,
            calls.len() as int,
        ).slots(),
        forall|data: ArrayData|
            B::holds(data, state_before(a, states_a, calls.len() as int).slots()) == B::holds(
                data,
                state_before(b, states_b, calls.len() as int).slots(),
            ),
{
    lemma_run_slots(a, calls, states_a);
    lemma_run_slots(b, calls, states_b);
}

/// Calls that change nothing leave the builder as it was.
proof fn lemma_unchanged<T, B: ArrowBuilder<T>>(
    start: B,
    calls: Seq<Call<T>>,
    states: Seq<B>,
    i: int,
    j: int,
)
    requires
        runs(start, calls, states),
        0 <= i <= j <= calls.len(),
        forall|k: int| i <= k < j ==> #[trigger] calls[k] is Len || calls[k] is FinishCloned,
    ensures
        state_before(start, states, j) == state_before(start, states, i),
    decreases j - i,
{
    if i < j {
        lemma_unchanged(start, calls, states, i, j - 1);
        assert(call_step(state_before(start, states, j - 1), calls[j - 1], states[j - 1]));
    }
}

/// Law: `finish_cloned` returns what `finish` would return from the same
/// state: when call `i` is `finish_cloned` and the next call that can change
/// the builder, call `j`, is `finish`, both are called on builders holding the
/// same slots, so they return arrays with the same contents.
pub proof fn law_finish_cloned_is_finish<T, B: ArrowBuilder<T>>(
    start: B,
    calls: Seq<Call<T>>,
    states: Seq<B>,
    i: int,
    j: int,
)
    requires
        runs(start, calls, states),
        0 <= i < j < calls.len(),
        calls[i] is FinishCloned,
        calls[j] is Finish,
        forall|k: int| i < k < j ==> #[trigger] calls[k] is Len || calls[k] is FinishCloned,
    ensures
        state_before(start, states, i).slots() == state_before(start, states, j).slots(),
        forall|data: ArrayData|
            B::holds(data, state_before(start, states, i).slots()) == B::holds(
                data,
                state_before(start, states, j).slots(),
            ),
{
    lemma_unchanged(start, calls, states, i, j);
}

} // verus!
