use vstd::prelude::*;
use vstd::arithmetic::div_mod::lemma_fundamental_div_mod_converse;
use crate::config::ConfigError;
use crate::generators::{generate_silence, silence_of};
use crate::timing::{SAMPLE_RATE, beat_duration, beat_slot_samples};

verus! {

/// `s` cut or padded with `zero` at its end to exactly `len` samples.
pub open spec fn fitted<S>(s: Seq<S>, len: nat, zero: S) -> Seq<S> {
    Seq::new(len, |i: int| if i < s.len() { s[i] } else { zero })
}

/// A pattern step: 0 rests, 1 hits.
pub open spec fn is_step(v: u8) -> bool {
    v == 0 || v == 1
}

pub open spec fn valid_pattern(order: Seq<u8>) -> bool {
    forall|i: int| 0 <= i < order.len() ==> is_step(#[trigger] order[i])
}

/// `position` is the first step of `order` that is neither 0 nor 1.
pub open spec fn first_invalid_step(order: Seq<u8>, position: int) -> bool {
    &&& 0 <= position < order.len()
    &&& !is_step(order[position])
    &&& forall|j: int| 0 <= j < position ==> is_step(#[trigger] order[j])
}

/// Sample `i` of a loop: slot `i / slot` plays sample `i % slot` of `voice`
/// where the pattern hits, and `zero` where it rests.
pub open spec fn loop_cell<S>(order: Seq<u8>, voice: Seq<S>, slot: nat, zero: S, i: int) -> S {
    if order[i / slot as int] == 1 {
        voice[i % slot as int]
    } else {
        zero
    }
}

/// The loop that `order` makes of `voice`, one slot of `slot` samples per step.
pub open spec fn loop_samples<S>(order: Seq<u8>, voice: Seq<S>, slot: nat, zero: S) -> Seq<S> {
    Seq::new(order.len() * slot, |i: int| loop_cell(order, voice, slot, zero, i))
}

/// Cuts `sound` to `len` samples, or pads it with `zero` at its end up to `len`.
pub fn fit_to_length<S: Copy>(sound: &mut Vec<S>, len: usize, zero: S)
    ensures
        final(sound)@ == fitted(old(sound)@, len as nat, zero),
{
    let ghost orig = sound@;
    if sound.len() > len {
        sound.truncate(len);
        assert(sound@ =~= fitted(orig, len as nat, zero));
    } else {
        assert(sound@ =~= fitted(orig, sound@.len(), zero));
        while sound.len() < len
            invariant
                orig.len() <= sound@.len() <= len,
                sound@ == fitted(orig, sound@.len(), zero),
            decreases len - sound@.len(),
        {
            sound.push(zero);
            assert(sound@ =~= fitted(orig, sound@.len(), zero));
        }
    }
}

/// Shrinking a buffer and then growing it again keeps the samples that both
/// lengths share and fills every sample past the shorter length with `zero`.
pub proof fn lemma_shrink_then_grow<S>(s: Seq<S>, short: nat, long: nat, zero: S)
    requires
        short <= long,
    ensures
        fitted(fitted(s, short, zero), long, zero).len() == long,
        forall|i: int|
            short <= i < long ==> #[trigger] fitted(fitted(s, short, zero), long, zero)[i] == zero,
        forall|i: int|
            0 <= i < short ==> #[trigger] fitted(fitted(s, short, zero), long, zero)[i]
                == fitted(s, short, zero)[i],
{
}

/// Step `k` of a loop occupies samples `k * slot .. (k + 1) * slot`, which are
/// a copy of the voice where the step hits and all `zero` where it rests.
pub proof fn lemma_loop_slot<S>(order: Seq<u8>, voice: Seq<S>, slot: nat, zero: S, k: int, j: int)
    requires
        0 <= k < order.len(),
        0 <= j < slot,
    ensures
        k * slot + j < loop_samples(order, voice, slot, zero).len(),
        loop_samples(order, voice, slot, zero)[k * slot + j] == if order[k] == 1 {
            voice[j]
        } else {
            zero
        },
{
    lemma_fundamental_div_mod_converse(k * slot + j, slot as int, k, j);
    assert(k * slot + j < order.len() * slot) by (nonlinear_arith)
        requires
            0 <= k < order.len(),
            0 <= j < slot,
    ;
}

/// Builds one loop of `order` at `bpm` beats per minute. `sound` is first cut
/// or padded with `zero` to one beat slot; then each step adds one slot:
/// the fitted `sound` for a 1, silence for a 0. Any other step is refused.
pub fn generate_loop<S: Copy>(
    order: &Vec<u8>,
    sound: &mut Vec<S>,
    bpm: u32,
    zero: S,
) -> (r: Result<Vec<S>, ConfigError>)
    requires
        bpm > 0 ==> order@.len() * beat_slot_samples(bpm) <= usize::MAX,
    ensures
        r is Ok <==> bpm > 0 && valid_pattern(order@),
        match r {
            Ok(beat) => {
                &&& final(sound)@ == fitted(old(sound)@, beat_slot_samples(bpm), zero)
                &&& beat@ == loop_samples(order@, final(sound)@, beat_slot_samples(bpm), zero)
                &&& beat@.len() == order@.len() * beat_slot_samples(bpm)
            },
            Err(ConfigError::ZeroTempo) => bpm == 0 && final(sound)@ == old(sound)@,
            Err(ConfigError::InvalidStep { position }) => {
                &&& bpm > 0
                &&& first_invalid_step(order@, position as int)
                &&& final(sound)@ == old(sound)@
            },
            Err(_) => false,
        },
{
    if bpm == 0 {
        return Err(ConfigError::ZeroTempo);
    }
    let ghost orig = sound@;
    let mut p: usize = 0;
    while p < order.len()
        invariant
            p <= order@.len(),
            bpm > 0,
            sound@ == orig,
            forall|j: int| 0 <= j < p ==> is_step(#[trigger] order@[j]),
        decreases order@.len() - p,
    {
        if order[p] != 0 && order[p] != 1 {
            return Err(ConfigError::InvalidStep { position: p });
        }
        p = p + 1;
    }
    let silence = generate_silence(beat_duration(bpm), SAMPLE_RATE, zero);
    let slot = silence.len();
    fit_to_length(sound, slot, zero);
    let ghost voice = sound@;
    let ghost n = order@.len();
    let mut beat: Vec<S> = Vec::new();
    let mut k: usize = 0;
    while k < order.len()
        invariant
            k <= n,
            bpm > 0,
            n == order@.len(),
            slot == beat_slot_samples(bpm),
            voice == sound@,
            voice.len() == slot,
            silence@ == silence_of(slot as nat, zero),
            beat@.len() == k * slot,
            forall|i: int|
                0 <= i < k * slot ==> #[trigger] beat@[i] == loop_cell(order@, voice, slot as nat, zero, i),
        decreases n - k,
    {
        let hit = order[k] == 1;
        let mut j: usize = 0;
        while j < slot
            invariant
                k < n,
                n == order@.len(),
                hit == (order@[k as int] == 1),
                voice == sound@,
                voice.len() == slot,
                silence@ == silence_of(slot as nat, zero),
                j <= slot,
                beat@.len() == k * slot + j,
                forall|i: int|
                    0 <= i < k * slot + j ==> #[trigger] beat@[i] == loop_cell(order@, voice, slot as nat, zero, i),
            decreases slot - j,
        {
            proof {
                lemma_fundamental_div_mod_converse(k * slot + j, slot as int, k as int, j as int);
            }
            if hit {
                beat.push(sound[j]);
            } else {
                beat.push(silence[j]);
            }
            j = j + 1;
        }
        assert(k * slot + slot == (k + 1) * slot) by (nonlinear_arith);
        k = k + 1;
    }
    assert(beat@ =~= loop_samples(order@, voice, slot as nat, zero));
    Ok(beat)
}

/// All patterns are as long as the first.
pub open spec fn equal_lengths(patterns: Seq<Vec<u8>>) -> bool {
    forall|v: int| 0 <= v < patterns.len() ==> (#[trigger] patterns[v])@.len() == patterns[0]@.len()
}

/// `voice` is the first pattern that is not as long as the first one.
pub open spec fn first_length_mismatch(patterns: Seq<Vec<u8>>, voice: int) -> bool {
    &&& 0 < voice < patterns.len()
    &&& patterns[voice]@.len() != patterns[0]@.len()
    &&& forall|v: int| 0 <= v < voice ==> (#[trigger] patterns[v])@.len() == patterns[0]@.len()
}

/// Checks that voices with these `patterns` stay in step at `bpm`: the tempo
/// is positive and every pattern is as long as the first. A zero tempo is
/// reported first, then the first pattern of another length.
pub fn validate_composition(patterns: &Vec<Vec<u8>>, bpm: u32) -> (r: Result<(), ConfigError>)
    ensures
        r is Ok <==> bpm > 0 && equal_lengths(patterns@),
        match r {
            Ok(()) => true,
            Err(ConfigError::ZeroTempo) => bpm == 0,
            Err(ConfigError::PatternLengthMismatch { voice }) => bpm > 0 && first_length_mismatch(
                patterns@,
                voice as int,
            ),
            Err(_) => false,
        },
{
    if bpm == 0 {
        return Err(ConfigError::ZeroTempo);
    }
    if patterns.len() == 0 {
        return Ok(());
    }
    let steps = patterns[0].len();
    let mut v: usize = 1;
    while v < patterns.len()
        invariant
            1 <= v <= patterns@.len(),
            bpm > 0,
            steps == patterns@[0]@.len(),
            forall|w: int| 0 <= w < v ==> (#[trigger] patterns@[w])@.len() == steps,
        decreases patterns@.len() - v,
    {
        if patterns[v].len() != steps {
            return Err(ConfigError::PatternLengthMismatch { voice: v });
        }
        v = v + 1;
    }
    Ok(())
}

} // verus!
