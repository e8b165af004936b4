use vstd::prelude::*;

verus! {

/// Why a composition cannot be synthesised as given.
#[derive(Clone, Copy, Debug, PartialEq, Eq)]
pub enum ConfigError {
    /// The tempo is zero beats per minute.
    ZeroTempo,
    /// The pattern step at `position` is neither 0 (rest) nor 1 (hit).
    InvalidStep { position: usize },
    /// The pattern of voice `voice` is not as long as the first pattern.
    PatternLengthMismatch { voice: usize },
    /// A voice lasts no time at all.
    ZeroDuration,
    /// A duration has a zero denominator.
    MalformedDuration,
    /// A filter has a cutoff frequency of zero.
    ZeroCutoff,
}

} // verus!
