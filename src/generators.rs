use vstd::prelude::*;
use crate::timing::{Seconds, samples_in, sample_count};

verus! {

/// A sequence of `len` copies of `zero`.
pub open spec fn silence_of<S>(len: nat, zero: S) -> Seq<S> {
    Seq::new(len, |_i: int| zero)
}

/// Silence lasting `duration` at `sample_rate`: `floor(duration * sample_rate)`
/// samples, each of them `zero`.
pub fn generate_silence<S: Copy>(duration: Seconds, sample_rate: u32, zero: S) -> (r: Vec<S>)
    requires
        duration.wf(),
        samples_in(duration, sample_rate) <= usize::MAX,
    ensures
        r@.len() == samples_in(duration, sample_rate),
        forall|i: int| 0 <= i < r@.len() ==> r@[i] == zero,
        r@ == silence_of(samples_in(duration, sample_rate), zero),
{
    let count = sample_count(duration, sample_rate);
    let mut samples: Vec<S> = Vec::with_capacity(count);
    let mut i: usize = 0;
    while i < count
        invariant
            i <= count,
            samples@ == silence_of(i as nat, zero),
        decreases count - i,
    {
        samples.push(zero);
        i = i + 1;
        assert(samples@ =~= silence_of(i as nat, zero));
    }
    samples
}

/// A sound lasting `duration` at `sample_rate`: `floor(duration * sample_rate)`
/// samples, sample `i` being what `sample_at` gives for `i`. The tone and
/// noise generators are this with their own `sample_at`.
pub fn generate_samples<S, F: Fn(usize) -> S>(
    duration: Seconds,
    sample_rate: u32,
    sample_at: F,
) -> (r: Vec<S>)
    requires
        duration.wf(),
        samples_in(duration, sample_rate) <= usize::MAX,
        forall|i: usize| sample_at.requires((i,)),
    ensures
        r@.len() == samples_in(duration, sample_rate),
        forall|i: int| 0 <= i < r@.len() ==> sample_at.ensures((i as usize,), #[trigger] r@[i]),
{
    let count = sample_count(duration, sample_rate);
    let mut samples: Vec<S> = Vec::with_capacity(count);
    let mut i: usize = 0;
    while i < count
        invariant
            i <= count,
            samples@.len() == i,
            forall|i: usize| sample_at.requires((i,)),
            forall|j: int| 0 <= j < i ==> sample_at.ensures((j as usize,), #[trigger] samples@[j]),
        decreases count - i,
    {
        let sample = sample_at(i);
        samples.push(sample);
        i = i + 1;
    }
    samples
}

} // verus!
