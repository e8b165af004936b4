use vstd::prelude::*;
use crate::timing::{Seconds, samples_in, sample_count};

verus! {

/// Where a sample stands in an attack-decay envelope.
#[derive(Clone, Copy, Debug, PartialEq, Eq)]
pub enum EnvelopePhase {
    /// Ramping up from 0 to 1: the gain is `index / length`.
    Attack { index: usize, length: usize },
    /// Ramping down from 1 to 0: the gain is `1 - offset / length`.
    Decay { offset: usize, length: usize },
    /// Past the decay: the sample is exactly silent.
    Silent,
}

/// An attack-decay envelope measured in samples.
#[derive(Clone, Copy, Debug, PartialEq, Eq)]
pub struct Envelope {
    pub attack_samples: usize,
    pub decay_samples: usize,
}

/// The phase of sample `i` under `env`.
pub open spec fn phase_at(env: Envelope, i: int) -> EnvelopePhase {
    if i < env.attack_samples {
        EnvelopePhase::Attack { index: i as usize, length: env.attack_samples }
    } else if i < env.attack_samples + env.decay_samples {
        EnvelopePhase::Decay { offset: (i - env.attack_samples) as usize, length: env.decay_samples }
    } else {
        EnvelopePhase::Silent
    }
}

/// The envelope of an attack of `attack` and a decay of `decay` at `rate`.
pub open spec fn envelope_of(rate: u32, attack: Seconds, decay: Seconds) -> Envelope {
    Envelope {
        attack_samples: samples_in(attack, rate) as usize,
        decay_samples: samples_in(decay, rate) as usize,
    }
}

impl Envelope {
    /// The envelope of an attack of `attack` and a decay of `decay`, both
    /// truncated to whole samples at `sample_rate`.
    pub fn new(sample_rate: u32, attack: Seconds, decay: Seconds) -> (r: Envelope)
        requires
            attack.wf(),
            decay.wf(),
            samples_in(attack, sample_rate) <= usize::MAX,
            samples_in(decay, sample_rate) <= usize::MAX,
        ensures
            r == envelope_of(sample_rate, attack, decay),
            r.attack_samples == samples_in(attack, sample_rate),
            r.decay_samples == samples_in(decay, sample_rate),
    {
        Envelope {
            attack_samples: sample_count(attack, sample_rate),
            decay_samples: sample_count(decay, sample_rate),
        }
    }

    /// The phase of sample `i`.
    pub fn phase(&self, i: usize) -> (r: EnvelopePhase)
        ensures
            r == phase_at(*self, i as int),
    {
        if i < self.attack_samples {
            EnvelopePhase::Attack { index: i, length: self.attack_samples }
        } else if i - self.attack_samples < self.decay_samples {
            EnvelopePhase::Decay { offset: i - self.attack_samples, length: self.decay_samples }
        } else {
            EnvelopePhase::Silent
        }
    }
}

/// Shapes `samples` in place with an attack of `attack_time` and a decay of
/// `decay_time` at `sample_rate`. Each sample in the attack or the decay is
/// replaced by `scale` of it and its phase; every sample after the decay is
/// set to `zero`.
pub fn apply_envelope<S: Copy, F: Fn(S, EnvelopePhase) -> S>(
    samples: &mut Vec<S>,
    sample_rate: u32,
    attack_time: Seconds,
    decay_time: Seconds,
    zero: S,
    scale: F,
)
    requires
        attack_time.wf(),
        decay_time.wf(),
        samples_in(attack_time, sample_rate) <= usize::MAX,
        samples_in(decay_time, sample_rate) <= usize::MAX,
        forall|s: S, p: EnvelopePhase| scale.requires((s, p)),
    ensures
        final(samples)@.len() == old(samples)@.len(),
        forall|i: int|
            0 <= i < old(samples)@.len() && phase_at(envelope_of(sample_rate, attack_time, decay_time), i)
                != EnvelopePhase::Silent ==> scale.ensures(
                (old(samples)@[i], phase_at(envelope_of(sample_rate, attack_time, decay_time), i)),
                #[trigger] final(samples)@[i],
            ),
        forall|i: int|
            samples_in(attack_time, sample_rate) + samples_in(decay_time, sample_rate) <= i
                < old(samples)@.len() ==> #[trigger] final(samples)@[i] == zero,
{
    let env = Envelope::new(sample_rate, attack_time, decay_time);
    let ghost orig = samples@;
    let mut i: usize = 0;
    while i < samples.len()
        invariant
            env == envelope_of(sample_rate, attack_time, decay_time),
            forall|s: S, p: EnvelopePhase| scale.requires((s, p)),
            i <= samples@.len(),
            samples@.len() == orig.len(),
            forall|j: int| i <= j < orig.len() ==> #[trigger] samples@[j] == orig[j],
            forall|j: int|
                0 <= j < i && phase_at(env, j) != EnvelopePhase::Silent ==> scale.ensures(
                    (orig[j], phase_at(env, j)),
                    #[trigger] samples@[j],
                ),
            forall|j: int|
                0 <= j < i && phase_at(env, j) == EnvelopePhase::Silent ==> #[trigger] samples@[j] == zero,
        decreases orig.len() - i,
    {
        let phase = env.phase(i);
        let value = match phase {
            EnvelopePhase::Silent => zero,
            _ => scale(samples[i], phase),
        };
        samples[i] = value;
        i = i + 1;
    }
}

} // verus!
