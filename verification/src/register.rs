//! The registers of the four parts, and how far neighbouring voices may lie
//! apart.
use crate::error::HarmonyError;
use crate::interval::{compute_semi_tone_dist, semitone_distance, semitones_up, PitchClassArithmetic};
use vstd::prelude::*;

verus! {

/// The lowest octave of the bass.
pub const BASS_VOICE_LOWEST_OCTAVE: u8 = 2;

/// The highest octave of the bass.
pub const BASS_VOICE_HIGHEST_OCTAVE: u8 = 4;

/// The lowest pitch class of the bass in its lowest octave.
pub const BASS_VOICE_PITCH_CLASS_LOWER_BOUND: u8 = 4;

/// The highest pitch class of the bass in its highest octave.
pub const BASS_VOICE_PITCH_CLASS_UPPER_BOUND: u8 = 0;

/// The lowest octave of the tenor.
pub const TENOR_VOICE_LOWEST_OCTAVE: u8 = 3;

/// The highest octave of the tenor.
pub const TENOR_VOICE_HIGHEST_OCTAVE: u8 = 4;

/// The lowest pitch class of the tenor in its lowest octave.
pub const TENOR_VOICE_PITCH_CLASS_LOWER_BOUND: u8 = 3;

/// The highest pitch class of the tenor in its highest octave.
pub const TENOR_VOICE_PITCH_CLASS_UPPER_BOUND: u8 = 6;

/// The lowest octave of the alto.
pub const ALTO_VOICE_LOWEST_OCTAVE: u8 = 3;

/// The highest octave of the alto.
pub const ALTO_VOICE_HIGHEST_OCTAVE: u8 = 5;

/// The lowest pitch class of the alto in its lowest octave.
pub const ALTO_VOICE_PITCH_CLASS_LOWER_BOUND: u8 = 7;

/// The highest pitch class of the alto in its highest octave.
pub const ALTO_VOICE_PITCH_CLASS_UPPER_BOUND: u8 = 1;

/// The lowest octave of the soprano.
pub const SOPRANO_VOICE_LOWEST_OCTAVE: u8 = 4;

/// The highest octave of the soprano.
pub const SOPRANO_VOICE_HIGHEST_OCTAVE: u8 = 5;

/// The lowest pitch class of the soprano in its lowest octave.
pub const SOPRANO_VOICE_PITCH_CLASS_LOWER_BOUND: u8 = 2;

/// The highest pitch class of the soprano in its highest octave.
pub const SOPRANO_VOICE_PITCH_CLASS_UPPER_BOUND: u8 = 6;

/// The four parts of a harmony.
#[derive(Debug, Copy, Clone, PartialEq, Eq, Structural)]
pub enum Voice {
    Soprano,
    Alto,
    Tenor,
    Bass,
}

/// The register of a part: the octaves that it spans, the lowest pitch class
/// that it reaches in the lowest of them and the highest pitch class that it
/// reaches in the highest.
#[derive(Debug, Copy, Clone, PartialEq, Eq, Structural)]
pub struct Register {
    /// The lowest octave of the part.
    pub lowest_octave: u8,
    /// The highest octave of the part.
    pub highest_octave: u8,
    /// The lowest pitch class that the part reaches in its lowest octave.
    pub floor: u8,
    /// The highest pitch class that the part reaches in its highest octave.
    pub ceiling: u8,
}

/// The register of each part.
pub open spec fn register_of(voice: Voice) -> Register {
    match voice {
        Voice::Bass => Register {
            lowest_octave: BASS_VOICE_LOWEST_OCTAVE,
            highest_octave: BASS_VOICE_HIGHEST_OCTAVE,
            floor: BASS_VOICE_PITCH_CLASS_LOWER_BOUND,
            ceiling: BASS_VOICE_PITCH_CLASS_UPPER_BOUND,
        },
        Voice::Tenor => Register {
            lowest_octave: TENOR_VOICE_LOWEST_OCTAVE,
            highest_octave: TENOR_VOICE_HIGHEST_OCTAVE,
            floor: TENOR_VOICE_PITCH_CLASS_LOWER_BOUND,
            ceiling: TENOR_VOICE_PITCH_CLASS_UPPER_BOUND,
        },
        Voice::Alto => Register {
            lowest_octave: ALTO_VOICE_LOWEST_OCTAVE,
            highest_octave: ALTO_VOICE_HIGHEST_OCTAVE,
            floor: ALTO_VOICE_PITCH_CLASS_LOWER_BOUND,
            ceiling: ALTO_VOICE_PITCH_CLASS_UPPER_BOUND,
        },
        Voice::Soprano => Register {
            lowest_octave: SOPRANO_VOICE_LOWEST_OCTAVE,
            highest_octave: SOPRANO_VOICE_HIGHEST_OCTAVE,
            floor: SOPRANO_VOICE_PITCH_CLASS_LOWER_BOUND,
            ceiling: SOPRANO_VOICE_PITCH_CLASS_UPPER_BOUND,
        },
    }
}

/// The pitch, given as `(pitch_class, octave)`, lies in the register of the
/// part: in one of its octaves, not below the floor in the lowest of them and
/// not above the ceiling in the highest.
pub open spec fn in_register(voice: Voice, pitch: (u8, u8)) -> bool {
    let register = register_of(voice);
    &&& register.lowest_octave <= pitch.1 <= register.highest_octave
    &&& (pitch.1 == register.lowest_octave ==> pitch.0 >= register.floor)
    &&& (pitch.1 == register.highest_octave ==> pitch.0 <= register.ceiling)
}

/// The two octaves are neighbours.
pub open spec fn one_octave_apart(octave1: u8, octave2: u8) -> bool {
    octave1 - octave2 == 1 || octave2 - octave1 == 1
}

/// The spacing of bass and tenor. Where their octaves are neighbours, the
/// tenor's pitch class lies at most seven semitones above the bass's, counted
/// modulo twelve. Where they share an octave, the bass is not above the tenor.
pub open spec fn bass_and_tenor_spaced(bass: (u8, u8), tenor: (u8, u8)) -> bool {
    &&& (one_octave_apart(bass.1, tenor.1) ==> semitones_up(bass.0 as int, tenor.0 as int) <= 7)
    &&& (bass.1 == tenor.1 ==> bass.0 <= tenor.0)
}

/// The spacing of tenor and alto, and of alto and soprano. The two voices are
/// at most twelve semitones apart, and where they share an octave, the lower
/// part is not above the upper one.
pub open spec fn upper_voices_spaced(lower: (u8, u8), upper: (u8, u8)) -> bool {
    &&& semitone_distance(lower, upper) <= 12
    &&& (lower.1 == upper.1 ==> lower.0 <= upper.0)
}

/// Every voice lies in the register of its part, and neighbouring voices are
/// spaced as they must be.
pub open spec fn voices_in_range(
    soprano: (u8, u8),
    alto: (u8, u8),
    tenor: (u8, u8),
    bass: (u8, u8),
) -> bool {
    &&& in_register(Voice::Bass, bass)
    &&& bass_and_tenor_spaced(bass, tenor)
    &&& in_register(Voice::Tenor, tenor)
    &&& upper_voices_spaced(tenor, alto)
    &&& in_register(Voice::Alto, alto)
    &&& upper_voices_spaced(alto, soprano)
    &&& in_register(Voice::Soprano, soprano)
}

/// The outcome of checking registers and spacing from the bass upwards: each
/// part's register first, then its distance to the part above it. The first
/// rule that fails decides the error.
pub open spec fn range_verdict(
    soprano: (u8, u8),
    alto: (u8, u8),
    tenor: (u8, u8),
    bass: (u8, u8),
) -> Result<(), HarmonyError> {
    if !in_register(Voice::Bass, bass) {
        Err(HarmonyError::VoiceOutOfRange)
    } else if !bass_and_tenor_spaced(bass, tenor) {
        Err(HarmonyError::VoiceSpacingExceeded)
    } else if !in_register(Voice::Tenor, tenor) {
        Err(HarmonyError::VoiceOutOfRange)
    } else if !upper_voices_spaced(tenor, alto) {
        Err(HarmonyError::VoiceSpacingExceeded)
    } else if !in_register(Voice::Alto, alto) {
        Err(HarmonyError::VoiceOutOfRange)
    } else if !upper_voices_spaced(alto, soprano) {
        Err(HarmonyError::VoiceSpacingExceeded)
    } else if !in_register(Voice::Soprano, soprano) {
        Err(HarmonyError::VoiceOutOfRange)
    } else {
        Ok(())
    }
}

/// The check from the bass upwards passes exactly when every voice is in its
/// register and every pair of neighbours is spaced as it must be.
pub proof fn range_verdict_is_ok_iff_in_range(
    soprano: (u8, u8),
    alto: (u8, u8),
    tenor: (u8, u8),
    bass: (u8, u8),
)
    ensures
        range_verdict(soprano, alto, tenor, bass) is Ok
            <==> voices_in_range(soprano, alto, tenor, bass),
        range_verdict(soprano, alto, tenor, bass) is Err ==> {
            ||| range_verdict(soprano, alto, tenor, bass)
                == Err::<(), HarmonyError>(HarmonyError::VoiceOutOfRange)
            ||| range_verdict(soprano, alto, tenor, bass)
                == Err::<(), HarmonyError>(HarmonyError::VoiceSpacingExceeded)
        },
{
}

/// Between pitch classes of the octave, two voices above the bass are spaced
/// as they must be in two cases only. Either they share an octave and the
/// lower part is not above the upper one; or their octaves are neighbours and
/// they are at most twelve semitones apart.
pub proof fn upper_spacing_by_octaves(lower: (u8, u8), upper: (u8, u8))
    requires
        lower.0 < 12,
        upper.0 < 12,
    ensures
        upper_voices_spaced(lower, upper) <==> if lower.1 == upper.1 {
            lower.0 <= upper.0
        } else {
            one_octave_apart(lower.1, upper.1) && semitone_distance(lower, upper) <= 12
        },
{
}

impl Voice {
    /// The register of the part.
    pub fn register(&self) -> (register: Register)
        ensures
            register == register_of(*self),
    {
        match self {
            Voice::Bass => Register {
                lowest_octave: BASS_VOICE_LOWEST_OCTAVE,
                highest_octave: BASS_VOICE_HIGHEST_OCTAVE,
                floor: BASS_VOICE_PITCH_CLASS_LOWER_BOUND,
                ceiling: BASS_VOICE_PITCH_CLASS_UPPER_BOUND,
            },
            Voice::Tenor => Register {
                lowest_octave: TENOR_VOICE_LOWEST_OCTAVE,
                highest_octave: TENOR_VOICE_HIGHEST_OCTAVE,
                floor: TENOR_VOICE_PITCH_CLASS_LOWER_BOUND,
                ceiling: TENOR_VOICE_PITCH_CLASS_UPPER_BOUND,
            },
            Voice::Alto => Register {
                lowest_octave: ALTO_VOICE_LOWEST_OCTAVE,
                highest_octave: ALTO_VOICE_HIGHEST_OCTAVE,
                floor: ALTO_VOICE_PITCH_CLASS_LOWER_BOUND,
                ceiling: ALTO_VOICE_PITCH_CLASS_UPPER_BOUND,
            },
            Voice::Soprano => Register {
                lowest_octave: SOPRANO_VOICE_LOWEST_OCTAVE,
                highest_octave: SOPRANO_VOICE_HIGHEST_OCTAVE,
                floor: SOPRANO_VOICE_PITCH_CLASS_LOWER_BOUND,
                ceiling: SOPRANO_VOICE_PITCH_CLASS_UPPER_BOUND,
            },
        }
    }

    /// Whether the pitch, given as `(pitch_class, octave)`, lies in the
    /// register of the part.
    pub fn admits(&self, pitch: (u8, u8)) -> (yes: bool)
        ensures
            yes == in_register(*self, pitch),
    {
        let register = self.register();
        if pitch.1 < register.lowest_octave || pitch.1 > register.highest_octave {
            false
        } else if pitch.1 == register.lowest_octave && pitch.0 < register.floor {
            false
        } else if pitch.1 == register.highest_octave && pitch.0 > register.ceiling {
            false
        } else {
            true
        }
    }
}

/// Whether two octaves are neighbours.
fn octaves_are_neighbours(octave1: u8, octave2: u8) -> (yes: bool)
    ensures
        yes == one_octave_apart(octave1, octave2),
{
    (octave1 > octave2 && octave1 - octave2 == 1) || (octave2 > octave1 && octave2 - octave1 == 1)
}

/// Whether bass and tenor, each given as `(pitch_class, octave)`, are spaced
/// as they must be.
pub fn bass_and_tenor_are_spaced(bass: (u8, u8), tenor: (u8, u8)) -> (yes: bool)
    ensures
        yes == bass_and_tenor_spaced(bass, tenor),
{
    if octaves_are_neighbours(bass.1, tenor.1) && bass.0.dist(&tenor.0) > 7 {
        false
    } else if bass.1 == tenor.1 && bass.0 > tenor.0 {
        false
    } else {
        true
    }
}

/// Whether two neighbouring voices above the bass, each given as
/// `(pitch_class, octave)`, are spaced as they must be.
pub fn upper_voices_are_spaced(lower: (u8, u8), upper: (u8, u8)) -> (yes: bool)
    ensures
        yes == upper_voices_spaced(lower, upper),
{
    if compute_semi_tone_dist(lower, upper) > 12 {
        false
    } else if lower.1 == upper.1 && lower.0 > upper.0 {
        false
    } else {
        true
    }
}

/// Checks that each voice, given as `(pitch_class, octave)`, lies in the
/// register of its part and that neighbouring voices are spaced as they must
/// be. The check runs from the bass upwards and reports the first rule that
/// fails.
pub fn check_voice_ranges(
    soprano: (u8, u8),
    alto: (u8, u8),
    tenor: (u8, u8),
    bass: (u8, u8),
) -> (verdict: Result<(), HarmonyError>)
    ensures
        verdict == range_verdict(soprano, alto, tenor, bass),
{
    if !Voice::Bass.admits(bass) {
        Err(HarmonyError::VoiceOutOfRange)
    } else if !bass_and_tenor_are_spaced(bass, tenor) {
        Err(HarmonyError::VoiceSpacingExceeded)
    } else if !Voice::Tenor.admits(tenor) {
        Err(HarmonyError::VoiceOutOfRange)
    } else if !upper_voices_are_spaced(tenor, alto) {
        Err(HarmonyError::VoiceSpacingExceeded)
    } else if !Voice::Alto.admits(alto) {
        Err(HarmonyError::VoiceOutOfRange)
    } else if !upper_voices_are_spaced(alto, soprano) {
        Err(HarmonyError::VoiceSpacingExceeded)
    } else if !Voice::Soprano.admits(soprano) {
        Err(HarmonyError::VoiceOutOfRange)
    } else {
        Ok(())
    }
}

/// Validates the ranges of four voices, each given as
/// `(pitch_class, octave)`. Returns `true` if every voice lies in the register
/// of its part and neighbouring voices are spaced as they must be, `false`
/// otherwise.
pub fn validate_voice_ranges(
    soprano: (u8, u8),
    alto: (u8, u8),
    tenor: (u8, u8),
    bass: (u8, u8),
) -> (ok: bool)
    ensures
        ok == voices_in_range(soprano, alto, tenor, bass),
{
    proof {
        range_verdict_is_ok_iff_in_range(soprano, alto, tenor, bass);
    }
    check_voice_ranges(soprano, alto, tenor, bass).is_ok()
}

} // verus!
