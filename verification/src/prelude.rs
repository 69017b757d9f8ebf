//! Everything that a user of the library needs, in one import.
pub use crate::error::HarmonyError;
pub use crate::harmony::{
    check_harmony, classify_harmony, harmonic_function, validate_harmony, HarmonicFunction,
};
pub use crate::interval::{compute_semi_tone_dist, PitchClassArithmetic};
pub use crate::pitch::{
    Pitch, A_440_FREQUENCY_BITS, A_440_HALFSTEPS_FROM_0, A_440_OCTAVE,
    SEMITONE_FREQUENCY_RATIO_BITS,
};
pub use crate::register::{check_voice_ranges, validate_voice_ranges, Register, Voice};
pub use crate::satb::SATB;
pub use crate::wave::sample_ticks;
