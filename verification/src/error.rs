//! Why four voices are turned down as a harmony.
use vstd::prelude::*;

verus! {

/// The first rule that a candidate harmony breaks.
#[derive(Debug, Copy, Clone, PartialEq, Eq, Structural)]
pub enum HarmonyError {
    /// A voice lies outside the register of its part.
    VoiceOutOfRange,
    /// Two neighbouring voices are too far apart, or have crossed within one
    /// octave.
    VoiceSpacingExceeded,
    /// No voice sounds the root.
    NoRootPresent,
    /// The voices and the root hold fewer than two or more than four pitch
    /// classes.
    InvalidVoiceCount,
    /// Among three pitch classes the bass is neither the root nor a third nor
    /// a fifth above it.
    InvalidBassFunction,
    /// The voices do not fill the harmonic functions that their texture calls
    /// for.
    IncompleteHarmonicFunction,
}

} // verus!
