use vstd::prelude::*;

verus! {

/// `states` is a run of `step` over `input` from `start` that wrote `output`:
/// sample `i` goes in with state `states[i]`, and `step` gives back the state
/// `states[i + 1]` and the output sample `output[i]`.
pub open spec fn is_run<S, St, F: Fn(St, S) -> (St, S)>(
    step: F,
    start: St,
    input: Seq<S>,
    output: Seq<S>,
    states: Seq<St>,
) -> bool {
    &&& output.len() == input.len()
    &&& states.len() == input.len() + 1
    &&& states[0] == start
    &&& forall|i: int|
        0 <= i < input.len() ==> step.ensures(
            (states[i], input[i]),
            (states[i + 1], #[trigger] output[i]),
        )
}

/// Runs a recursive filter over `samples` in place. The filter's state
/// starts at `start` on every call, whatever earlier calls did; each sample
/// is replaced by what `step` makes of it and the current state, and the
/// state that `step` hands back carries on to the next sample.
pub fn run_filter<S: Copy, St: Copy, F: Fn(St, S) -> (St, S)>(
    samples: &mut Vec<S>,
    start: St,
    step: F,
)
    requires
        forall|st: St, s: S| step.requires((st, s)),
    ensures
        exists|states: Seq<St>| is_run(step, start, old(samples)@, final(samples)@, states),
{
    let ghost orig = samples@;
    let ghost mut states: Seq<St> = seq![start];
    let mut state = start;
    let mut i: usize = 0;
    while i < samples.len()
        invariant
            forall|st: St, s: S| step.requires((st, s)),
            i <= samples@.len(),
            samples@.len() == orig.len(),
            states.len() == i + 1,
            states[0] == start,
            states[i as int] == state,
            forall|j: int| i <= j < orig.len() ==> #[trigger] samples@[j] == orig[j],
            forall|j: int|
                0 <= j < i ==> step.ensures(
                    (states[j], orig[j]),
                    (states[j + 1], #[trigger] samples@[j]),
                ),
        decreases orig.len() - i,
    {
        let (next, out) = step(state, samples[i]);
        samples[i] = out;
        proof {
            states = states.push(next);
        }
        state = next;
        i = i + 1;
    }
    assert(is_run(step, start, orig, samples@, states));
}

proof fn lemma_run_stays_at_rest<S, St, F: Fn(St, S) -> (St, S)>(
    step: F,
    start: St,
    input: Seq<S>,
    output: Seq<S>,
    states: Seq<St>,
    rest: S,
    k: int,
)
    requires
        is_run(step, start, input, output, states),
        forall|i: int| 0 <= i < input.len() ==> #[trigger] input[i] == rest,
        forall|o: (St, S)| step.ensures((start, rest), o) ==> o == (start, rest),
        0 <= k <= input.len(),
    ensures
        states[k] == start,
        forall|i: int| 0 <= i < k ==> #[trigger] output[i] == rest,
    decreases k,
{
    if k > 0 {
        lemma_run_stays_at_rest(step, start, input, output, states, rest, k - 1);
        assert(step.ensures((states[k - 1], input[k - 1]), (states[k], output[k - 1])));
    }
}

/// A filter whose step, from the start state, answers a `rest` sample with
/// `rest` and the start state again turns an input that is all `rest` into
/// an output that is all `rest`.
pub proof fn lemma_rest_in_rest_out<S, St, F: Fn(St, S) -> (St, S)>(
    step: F,
    start: St,
    input: Seq<S>,
    output: Seq<S>,
    states: Seq<St>,
    rest: S,
)
    requires
        is_run(step, start, input, output, states),
        forall|i: int| 0 <= i < input.len() ==> #[trigger] input[i] == rest,
        forall|o: (St, S)| step.ensures((start, rest), o) ==> o == (start, rest),
    ensures
        forall|i: int| 0 <= i < output.len() ==> #[trigger] output[i] == rest,
{
    lemma_run_stays_at_rest(step, start, input, output, states, rest, input.len() as int);
}

/// `step` gives one answer for each state and sample.
pub open spec fn is_deterministic<S, St, F: Fn(St, S) -> (St, S)>(step: F) -> bool {
    forall|st: St, s: S, o1: (St, S), o2: (St, S)|
        step.ensures((st, s), o1) && step.ensures((st, s), o2) ==> o1 == o2
}

proof fn lemma_runs_agree_upto<S, St, F: Fn(St, S) -> (St, S)>(
    step: F,
    start: St,
    input: Seq<S>,
    out1: Seq<S>,
    states1: Seq<St>,
    out2: Seq<S>,
    states2: Seq<St>,
    k: int,
)
    requires
        is_deterministic(step),
        is_run(step, start, input, out1, states1),
        is_run(step, start, input, out2, states2),
        0 <= k <= input.len(),
    ensures
        states1[k] == states2[k],
        forall|i: int| 0 <= i < k ==> #[trigger] out1[i] == out2[i],
    decreases k,
{
    if k > 0 {
        lemma_runs_agree_upto(step, start, input, out1, states1, out2, states2, k - 1);
        assert(step.ensures((states1[k - 1], input[k - 1]), (states1[k], out1[k - 1])));
        assert(step.ensures((states2[k - 1], input[k - 1]), (states2[k], out2[k - 1])));
    }
}

/// Filter state is never shared between calls: with a deterministic step,
/// two runs over the same input from the same start write the same output,
/// whatever other runs happened between them.
pub proof fn lemma_runs_agree<S, St, F: Fn(St, S) -> (St, S)>(
    step: F,
    start: St,
    input: Seq<S>,
    out1: Seq<S>,
    states1: Seq<St>,
    out2: Seq<S>,
    states2: Seq<St>,
)
    requires
        is_deterministic(step),
        is_run(step, start, input, out1, states1),
        is_run(step, start, input, out2, states2),
    ensures
        out1 == out2,
{
    lemma_runs_agree_upto(step, start, input, out1, states1, out2, states2, input.len() as int);
    assert(out1 =~= out2);
}

} // verus!
