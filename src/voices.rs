use vstd::prelude::*;
use crate::config::ConfigError;
use crate::timing::Seconds;

verus! {

/// What a voice's raw sound is made of.
#[derive(Clone, Copy, Debug, PartialEq, Eq)]
pub enum SoundSource {
    /// A sine tone whose frequency moves linearly from `start_hz` to `end_hz`.
    Sweep { start_hz: u32, end_hz: u32 },
    /// Uniform white noise.
    Noise,
}

/// The two one-pole filters.
#[derive(Clone, Copy, Debug, PartialEq, Eq)]
pub enum FilterKind {
    HighPass,
    LowPass,
}

/// One filter pass over a voice.
#[derive(Clone, Copy, Debug, PartialEq, Eq)]
pub struct FilterStage {
    pub kind: FilterKind,
    pub cutoff_hz: u32,
}

/// How one voice is synthesised: a raw sound of `duration`, shaped by an
/// envelope of `attack` and `decay`, then passed through `filters` in order.
#[derive(Debug)]
pub struct VoiceRecipe {
    pub source: SoundSource,
    pub duration: Seconds,
    pub attack: Seconds,
    pub decay: Seconds,
    pub filters: Vec<FilterStage>,
}

/// The kick: a sweep from 110 Hz down to 20 Hz over half a second, an
/// envelope of 10 ms and 300 ms, and a low-pass at 11000 Hz.
pub fn kick_recipe() -> (r: VoiceRecipe)
    ensures
        r.source == (SoundSource::Sweep { start_hz: 110, end_hz: 20 }),
        r.duration == (Seconds { numer: 500, denom: 1000 }),
        r.attack == (Seconds { numer: 10, denom: 1000 }),
        r.decay == (Seconds { numer: 300, denom: 1000 }),
        r.filters@ == seq![FilterStage { kind: FilterKind::LowPass, cutoff_hz: 11000 }],
{
    let mut filters: Vec<FilterStage> = Vec::new();
    filters.push(FilterStage { kind: FilterKind::LowPass, cutoff_hz: 11000 });
    assert(filters@ =~= seq![FilterStage { kind: FilterKind::LowPass, cutoff_hz: 11000 }]);
    VoiceRecipe {
        source: SoundSource::Sweep { start_hz: 110, end_hz: 20 },
        duration: Seconds::from_millis(500),
        attack: Seconds::from_millis(10),
        decay: Seconds::from_millis(300),
        filters,
    }
}

/// The snare: 0.9 s of noise, an envelope of 10 ms and 300 ms, a high-pass
/// at 1000 Hz and then a low-pass at 2000 Hz.
pub fn snare_recipe() -> (r: VoiceRecipe)
    ensures
        r.source == SoundSource::Noise,
        r.duration == (Seconds { numer: 900, denom: 1000 }),
        r.attack == (Seconds { numer: 10, denom: 1000 }),
        r.decay == (Seconds { numer: 300, denom: 1000 }),
        r.filters@ == seq![
            FilterStage { kind: FilterKind::HighPass, cutoff_hz: 1000 },
            FilterStage { kind: FilterKind::LowPass, cutoff_hz: 2000 },
        ],
{
    let mut filters: Vec<FilterStage> = Vec::new();
    filters.push(FilterStage { kind: FilterKind::HighPass, cutoff_hz: 1000 });
    filters.push(FilterStage { kind: FilterKind::LowPass, cutoff_hz: 2000 });
    assert(filters@ =~= seq![
        FilterStage { kind: FilterKind::HighPass, cutoff_hz: 1000 },
        FilterStage { kind: FilterKind::LowPass, cutoff_hz: 2000 },
    ]);
    VoiceRecipe {
        source: SoundSource::Noise,
        duration: Seconds::from_millis(900),
        attack: Seconds::from_millis(10),
        decay: Seconds::from_millis(300),
        filters,
    }
}

/// The hi-hat: 0.2 s of noise, an envelope of 10 ms and 200 ms, and a
/// high-pass at 300 Hz.
pub fn hat_recipe() -> (r: VoiceRecipe)
    ensures
        r.source == SoundSource::Noise,
        r.duration == (Seconds { numer: 200, denom: 1000 }),
        r.attack == (Seconds { numer: 10, denom: 1000 }),
        r.decay == (Seconds { numer: 200, denom: 1000 }),
        r.filters@ == seq![FilterStage { kind: FilterKind::HighPass, cutoff_hz: 300 }],
{
    let mut filters: Vec<FilterStage> = Vec::new();
    filters.push(FilterStage { kind: FilterKind::HighPass, cutoff_hz: 300 });
    assert(filters@ =~= seq![FilterStage { kind: FilterKind::HighPass, cutoff_hz: 300 }]);
    VoiceRecipe {
        source: SoundSource::Noise,
        duration: Seconds::from_millis(200),
        attack: Seconds::from_millis(10),
        decay: Seconds::from_millis(200),
        filters,
    }
}

/// Every duration of `r` is a well-formed fraction.
pub open spec fn durations_wf(r: VoiceRecipe) -> bool {
    r.duration.wf() && r.attack.wf() && r.decay.wf()
}

/// Some filter of `r` has a cutoff of 0 Hz.
pub open spec fn has_zero_cutoff(r: VoiceRecipe) -> bool {
    exists|i: int| 0 <= i < r.filters@.len() && (#[trigger] r.filters@[i]).cutoff_hz == 0
}

/// Checks that `recipe` can be synthesised: its durations are well formed,
/// its sound lasts some time and every filter has a positive cutoff. The
/// first of these that fails, in that order, is the error.
pub fn validate_recipe(recipe: &VoiceRecipe) -> (r: Result<(), ConfigError>)
    ensures
        r is Ok <==> durations_wf(*recipe) && recipe.duration.numer > 0 && !has_zero_cutoff(*recipe),
        r == Err::<(), ConfigError>(ConfigError::MalformedDuration) <==> !durations_wf(*recipe),
        r == Err::<(), ConfigError>(ConfigError::ZeroDuration) <==> durations_wf(*recipe)
            && recipe.duration.numer == 0,
        r == Err::<(), ConfigError>(ConfigError::ZeroCutoff) <==> durations_wf(*recipe)
            && recipe.duration.numer > 0 && has_zero_cutoff(*recipe),
{
    if recipe.duration.denom == 0 || recipe.attack.denom == 0 || recipe.decay.denom == 0 {
        return Err(ConfigError::MalformedDuration);
    }
    if recipe.duration.numer == 0 {
        return Err(ConfigError::ZeroDuration);
    }
    let mut i: usize = 0;
    while i < recipe.filters.len()
        invariant
            i <= recipe.filters@.len(),
            durations_wf(*recipe),
            recipe.duration.numer > 0,
            forall|j: int| 0 <= j < i ==> (#[trigger] recipe.filters@[j]).cutoff_hz != 0,
        decreases recipe.filters@.len() - i,
    {
        if recipe.filters[i].cutoff_hz == 0 {
            return Err(ConfigError::ZeroCutoff);
        }
        i = i + 1;
    }
    Ok(())
}

} // verus!
