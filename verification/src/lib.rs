//! Pitches in twelve-tone equal temperament and the rules of traditional
//! four-part harmony.
//!
//! The octave is divided into twelve equal semitones. A pitch is a pitch class
//! (`0` for C up to `11` for B) in an octave; four pitches, one each for
//! soprano, alto, tenor and bass, form a harmony over a declared root.
pub mod error;
pub mod harmony;
pub mod interval;
pub mod pitch;
pub mod prelude;
pub mod register;
pub mod satb;
pub mod wave;

pub use crate::error::HarmonyError;
pub use crate::harmony::{
    check_harmony, classify_harmony, harmonic_function, validate_harmony, HarmonicFunction,
};
pub use crate::interval::{compute_semi_tone_dist, PitchClassArithmetic};
pub use crate::pitch::{
    Pitch, A_440_FREQUENCY_BITS, A_440_HALFSTEPS_FROM_0, A_440_OCTAVE,
    SEMITONE_FREQUENCY_RATIO_BITS,
};
pub use crate::register::{check_voice_ranges, validate_voice_ranges, Register, Voice};
pub use crate::satb::SATB;
pub use crate::wave::sample_ticks;
