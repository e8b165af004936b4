use vstd::prelude::*;

verus! {

/// The sample rate that loops are sequenced at, in samples per second.
pub const SAMPLE_RATE: u32 = 44100;

/// A length of time in seconds, held as the exact fraction `numer / denom`.
#[derive(Clone, Copy, Debug, PartialEq, Eq)]
pub struct Seconds {
    pub numer: u32,
    pub denom: u32,
}

impl Seconds {
    pub open spec fn wf(self) -> bool {
        self.denom > 0
    }

    /// `numer / denom` seconds.
    pub fn new(numer: u32, denom: u32) -> (r: Seconds)
        requires
            denom > 0,
        ensures
            r == (Seconds { numer, denom }),
            r.wf(),
    {
        Seconds { numer, denom }
    }

    /// A whole number of milliseconds.
    pub fn from_millis(millis: u32) -> (r: Seconds)
        ensures
            r == (Seconds { numer: millis, denom: 1000 }),
            r.wf(),
    {
        Seconds { numer: millis, denom: 1000 }
    }
}

/// Number of samples in `d` at `rate` samples per second, truncated:
/// `floor(d * rate)`.
pub open spec fn samples_in(d: Seconds, rate: u32) -> nat
    recommends
        d.wf(),
{
    (d.numer as int * rate as int / d.denom as int) as nat
}

/// Length of one beat slot at `bpm` beats per minute, at the fixed sample
/// rate: `floor(60 / bpm * SAMPLE_RATE)`.
pub open spec fn beat_slot_samples(bpm: u32) -> nat
    recommends
        bpm > 0,
{
    (60 * SAMPLE_RATE as int / bpm as int) as nat
}

/// Duration of one beat at `bpm` beats per minute: `60 / bpm` seconds.
pub fn beat_duration(bpm: u32) -> (r: Seconds)
    requires
        bpm > 0,
    ensures
        r == (Seconds { numer: 60, denom: bpm }),
        samples_in(r, SAMPLE_RATE) == beat_slot_samples(bpm),
{
    Seconds { numer: 60, denom: bpm }
}

/// Number of samples that `duration` takes at `sample_rate`, truncated.
pub fn sample_count(duration: Seconds, sample_rate: u32) -> (r: usize)
    requires
        duration.wf(),
        samples_in(duration, sample_rate) <= usize::MAX,
    ensures
        r == samples_in(duration, sample_rate),
{
    let n = duration.numer as u64;
    let rate = sample_rate as u64;
    assert(n * rate <= u32::MAX * u32::MAX) by (nonlinear_arith)
        requires
            n <= u32::MAX,
            rate <= u32::MAX,
    ;
    let total: u64 = n * rate;
    (total / duration.denom as u64) as usize
}

/// Length of one beat slot at `bpm` beats per minute, at the fixed sample rate.
pub fn beat_slot_length(bpm: u32) -> (r: usize)
    requires
        bpm > 0,
    ensures
        r == beat_slot_samples(bpm),
        r <= 60 * SAMPLE_RATE,
{
    let slot: u32 = 60 * SAMPLE_RATE / bpm;
    slot as usize
}

} // verus!
