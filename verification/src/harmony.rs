//! The rules that decide whether four voices over a root form a harmony of
//! traditional four-part writing.
use crate::error::HarmonyError;
use crate::interval::{fifth_above, semitones_up, seventh_above, third_above, PitchClassArithmetic};
use crate::register::{
    check_voice_ranges, range_verdict, range_verdict_is_ok_iff_in_range, voices_in_range,
};
use vstd::prelude::*;

verus! {

/// What a voice contributes to a harmony, seen from the root.
#[derive(Debug, Copy, Clone, PartialEq, Eq, Structural)]
pub enum HarmonicFunction {
    /// The voice sounds the root itself.
    Root,
    /// The voice sounds a minor or a major third above the root.
    Third,
    /// The voice sounds a diminished or a perfect fifth above the root.
    Fifth,
    /// The voice sounds a diminished, a minor or a major seventh above the
    /// root.
    Seventh,
    /// The voice sounds none of these.
    Other,
}

/// The function of a pitch class over a root. The interval is always measured
/// from the root up to the voice.
pub open spec fn function_above(root: u8, pitch_class: u8) -> HarmonicFunction {
    if pitch_class == root {
        HarmonicFunction::Root
    } else if third_above(root as int, pitch_class as int) {
        HarmonicFunction::Third
    } else if fifth_above(root as int, pitch_class as int) {
        HarmonicFunction::Fifth
    } else if seventh_above(root as int, pitch_class as int) {
        HarmonicFunction::Seventh
    } else {
        HarmonicFunction::Other
    }
}

/// The pitch class lies a diminished fifth, six semitones, above the root.
pub open spec fn diminished_fifth_above(root: u8, pitch_class: u8) -> bool {
    semitones_up(root as int, pitch_class as int) == 6
}

/// One of three voices has the given function over the root.
pub open spec fn among_three(
    function: HarmonicFunction,
    root: u8,
    first: u8,
    second: u8,
    third: u8,
) -> bool {
    ||| function_above(root, first) == function
    ||| function_above(root, second) == function
    ||| function_above(root, third) == function
}

/// One of the four voices has the given function over the root.
pub open spec fn among_four(
    function: HarmonicFunction,
    root: u8,
    soprano: u8,
    alto: u8,
    tenor: u8,
    bass: u8,
) -> bool {
    function_above(root, bass) == function || among_three(function, root, tenor, alto, soprano)
}

/// The number of pitch classes that the root and the four voices hold between
/// them.
pub open spec fn distinct_classes(root: u8, soprano: u8, alto: u8, tenor: u8, bass: u8) -> nat {
    set![root, bass, tenor, alto, soprano].len()
}

/// The rule for two pitch classes: every voice sounds the root or a third
/// above it.
pub open spec fn two_classes_legal(root: u8, soprano: u8, alto: u8, tenor: u8, bass: u8) -> bool {
    &&& function_above(root, soprano) is Root || function_above(root, soprano) is Third
    &&& function_above(root, alto) is Root || function_above(root, alto) is Third
    &&& function_above(root, tenor) is Root || function_above(root, tenor) is Third
    &&& function_above(root, bass) is Root || function_above(root, bass) is Third
}

/// The rule for three pitch classes with the root in the bass: the three upper
/// voices are a root, a third and a fifth, in whatever order.
pub open spec fn root_position_legal(root: u8, soprano: u8, alto: u8, tenor: u8) -> bool {
    &&& among_three(HarmonicFunction::Root, root, tenor, alto, soprano)
    &&& among_three(HarmonicFunction::Third, root, tenor, alto, soprano)
    &&& among_three(HarmonicFunction::Fifth, root, tenor, alto, soprano)
}

/// The rule for three pitch classes with a third in the bass. Where an upper
/// voice sounds a diminished fifth, an upper voice doubles the third. Where
/// none does, no upper voice doubles the third, and the upper voices hold the
/// root and a fifth.
pub open spec fn first_inversion_legal(root: u8, soprano: u8, alto: u8, tenor: u8) -> bool {
    if diminished_fifth_above(root, soprano) || diminished_fifth_above(root, alto)
        || diminished_fifth_above(root, tenor)
    {
        among_three(HarmonicFunction::Third, root, tenor, alto, soprano)
    } else {
        &&& !among_three(HarmonicFunction::Third, root, tenor, alto, soprano)
        &&& among_three(HarmonicFunction::Root, root, tenor, alto, soprano)
        &&& among_three(HarmonicFunction::Fifth, root, tenor, alto, soprano)
    }
}

/// The rule for three pitch classes with a fifth in the bass: the upper voices
/// hold a fifth, a third and the root.
pub open spec fn second_inversion_legal(root: u8, soprano: u8, alto: u8, tenor: u8) -> bool {
    &&& among_three(HarmonicFunction::Fifth, root, tenor, alto, soprano)
    &&& among_three(HarmonicFunction::Third, root, tenor, alto, soprano)
    &&& among_three(HarmonicFunction::Root, root, tenor, alto, soprano)
}

/// The rule for four pitch classes: the voices hold the root, a third, a fifth
/// and a seventh. Each function must be present; nothing asks that each voice
/// has a function of its own.
pub open spec fn seventh_chord_legal(root: u8, soprano: u8, alto: u8, tenor: u8, bass: u8) -> bool {
    &&& among_four(HarmonicFunction::Root, root, soprano, alto, tenor, bass)
    &&& among_four(HarmonicFunction::Third, root, soprano, alto, tenor, bass)
    &&& among_four(HarmonicFunction::Fifth, root, soprano, alto, tenor, bass)
    &&& among_four(HarmonicFunction::Seventh, root, soprano, alto, tenor, bass)
}

/// `Ok` where the rule holds, and the error of an unfilled function where it
/// does not.
pub open spec fn filled(rule_holds: bool) -> Result<(), HarmonyError> {
    if rule_holds {
        Ok(())
    } else {
        Err(HarmonyError::IncompleteHarmonicFunction)
    }
}

/// The outcome for three pitch classes, which depends on what the bass sounds.
pub open spec fn triad_verdict(
    root: u8,
    soprano: u8,
    alto: u8,
    tenor: u8,
    bass: u8,
) -> Result<(), HarmonyError> {
    match function_above(root, bass) {
        HarmonicFunction::Root => filled(root_position_legal(root, soprano, alto, tenor)),
        HarmonicFunction::Third => filled(first_inversion_legal(root, soprano, alto, tenor)),
        HarmonicFunction::Fifth => filled(second_inversion_legal(root, soprano, alto, tenor)),
        _ => Err(HarmonyError::InvalidBassFunction),
    }
}

/// The outcome of classifying the pitch classes of four voices over a root.
/// A voice must sound the root. Then the number of pitch classes decides
/// which rule applies.
pub open spec fn classification(
    root: u8,
    soprano: u8,
    alto: u8,
    tenor: u8,
    bass: u8,
) -> Result<(), HarmonyError> {
    if !among_four(HarmonicFunction::Root, root, soprano, alto, tenor, bass) {
        Err(HarmonyError::NoRootPresent)
    } else if distinct_classes(root, soprano, alto, tenor, bass) == 2 {
        filled(two_classes_legal(root, soprano, alto, tenor, bass))
    } else if distinct_classes(root, soprano, alto, tenor, bass) == 3 {
        triad_verdict(root, soprano, alto, tenor, bass)
    } else if distinct_classes(root, soprano, alto, tenor, bass) == 4 {
        filled(seventh_chord_legal(root, soprano, alto, tenor, bass))
    } else {
        Err(HarmonyError::InvalidVoiceCount)
    }
}

/// The outcome of validating four voices, each given as
/// `(pitch_class, octave)`, over a root: registers and spacing first, then
/// the classification of the pitch classes.
pub open spec fn harmony_verdict(
    root: u8,
    soprano: (u8, u8),
    alto: (u8, u8),
    tenor: (u8, u8),
    bass: (u8, u8),
) -> Result<(), HarmonyError> {
    if range_verdict(soprano, alto, tenor, bass) is Err {
        range_verdict(soprano, alto, tenor, bass)
    } else {
        classification(root, soprano.0, alto.0, tenor.0, bass.0)
    }
}

/// A voice has a function exactly when it stands in the interval of that
/// name above the root, and it is the root exactly when it equals the root.
pub proof fn function_agrees_with_intervals(root: u8, pitch_class: u8)
    ensures
        function_above(root, pitch_class) is Root <==> pitch_class == root,
        function_above(root, pitch_class) is Third
            <==> third_above(root as int, pitch_class as int),
        function_above(root, pitch_class) is Fifth
            <==> fifth_above(root as int, pitch_class as int),
        function_above(root, pitch_class) is Seventh
            <==> seventh_above(root as int, pitch_class as int),
{
}

/// The root and four voices hold between one and five pitch classes, and at
/// most four where a voice sounds the root. They hold one alone exactly when
/// every voice sounds the root.
pub proof fn distinct_classes_bounds(root: u8, soprano: u8, alto: u8, tenor: u8, bass: u8)
    ensures
        1 <= distinct_classes(root, soprano, alto, tenor, bass) <= 5,
        among_four(HarmonicFunction::Root, root, soprano, alto, tenor, bass)
            ==> distinct_classes(root, soprano, alto, tenor, bass) <= 4,
        distinct_classes(root, soprano, alto, tenor, bass) == 1
            <==> (soprano == root && alto == root && tenor == root && bass == root),
{
}

/// The number of pitch classes is refused exactly when all four voices sound
/// the root.
pub proof fn invalid_voice_count_is_unison(root: u8, soprano: u8, alto: u8, tenor: u8, bass: u8)
    ensures
        classification(root, soprano, alto, tenor, bass)
            == Err::<(), HarmonyError>(HarmonyError::InvalidVoiceCount)
            <==> (soprano == root && alto == root && tenor == root && bass == root),
{
    distinct_classes_bounds(root, soprano, alto, tenor, bass);
}

/// With the root in the bass, the three upper voices are a root, a third and
/// a fifth exactly when one of them is the root and the other two are a third
/// and a fifth, in either order.
pub proof fn root_position_by_assignment(root: u8, soprano: u8, alto: u8, tenor: u8)
    ensures
        root_position_legal(root, soprano, alto, tenor) <==> {
            ||| (tenor == root && {
                ||| (function_above(root, alto) is Third && function_above(root, soprano) is Fifth)
                ||| (function_above(root, soprano) is Third && function_above(root, alto) is Fifth)
            })
            ||| (alto == root && {
                ||| (function_above(root, tenor) is Third && function_above(root, soprano) is Fifth)
                ||| (function_above(root, soprano) is Third && function_above(root, tenor) is Fifth)
            })
            ||| (soprano == root && {
                ||| (function_above(root, tenor) is Third && function_above(root, alto) is Fifth)
                ||| (function_above(root, alto) is Third && function_above(root, tenor) is Fifth)
            })
        },
{
}

/// A triad in root position, with the root in bass and tenor, is a harmony
/// whichever of alto and soprano takes the third and whichever the fifth: it
/// passes validation whenever its voices are in range.
pub proof fn doubled_root_triad_is_legal(
    root: u8,
    soprano: (u8, u8),
    alto: (u8, u8),
    tenor: (u8, u8),
    bass: (u8, u8),
)
    requires
        bass.0 == root,
        tenor.0 == root,
        (function_above(root, alto.0) is Third && function_above(root, soprano.0) is Fifth)
            || (function_above(root, alto.0) is Fifth && function_above(root, soprano.0) is Third),
    ensures
        classification(root, soprano.0, alto.0, tenor.0, bass.0) is Ok,
        harmony_verdict(root, soprano, alto, tenor, bass) is Ok
            <==> voices_in_range(soprano, alto, tenor, bass),
{
    assert(set![root, root, root, alto.0, soprano.0] =~= set![root, alto.0, soprano.0]);
    range_verdict_is_ok_iff_in_range(soprano, alto, tenor, bass);
}

/// Two pitch classes without a third among the voices are no harmony: root
/// and fifth alone are turned down, wherever the voices lie.
pub proof fn two_classes_without_third_rejected(
    root: u8,
    soprano: (u8, u8),
    alto: (u8, u8),
    tenor: (u8, u8),
    bass: (u8, u8),
)
    requires
        distinct_classes(root, soprano.0, alto.0, tenor.0, bass.0) == 2,
        !among_four(HarmonicFunction::Third, root, soprano.0, alto.0, tenor.0, bass.0),
    ensures
        classification(root, soprano.0, alto.0, tenor.0, bass.0) is Err,
        harmony_verdict(root, soprano, alto, tenor, bass) is Err,
        among_four(HarmonicFunction::Root, root, soprano.0, alto.0, tenor.0, bass.0)
            ==> classification(root, soprano.0, alto.0, tenor.0, bass.0)
            == Err::<(), HarmonyError>(HarmonyError::IncompleteHarmonicFunction),
{
    distinct_classes_bounds(root, soprano.0, alto.0, tenor.0, bass.0);
}

/// Four pitch classes without a seventh among the voices are no harmony, even
/// where root, third and fifth are all there, and wherever the voices lie.
pub proof fn four_classes_without_seventh_rejected(
    root: u8,
    soprano: (u8, u8),
    alto: (u8, u8),
    tenor: (u8, u8),
    bass: (u8, u8),
)
    requires
        distinct_classes(root, soprano.0, alto.0, tenor.0, bass.0) == 4,
        !among_four(HarmonicFunction::Seventh, root, soprano.0, alto.0, tenor.0, bass.0),
    ensures
        classification(root, soprano.0, alto.0, tenor.0, bass.0) is Err,
        harmony_verdict(root, soprano, alto, tenor, bass) is Err,
        among_four(HarmonicFunction::Root, root, soprano.0, alto.0, tenor.0, bass.0)
            ==> classification(root, soprano.0, alto.0, tenor.0, bass.0)
            == Err::<(), HarmonyError>(HarmonyError::IncompleteHarmonicFunction),
{
}

/// Every harmony that the rules allow holds its root and a third above it.
pub proof fn legal_harmony_holds_root_and_third(
    root: u8,
    soprano: u8,
    alto: u8,
    tenor: u8,
    bass: u8,
)
    requires
        classification(root, soprano, alto, tenor, bass) is Ok,
    ensures
        among_four(HarmonicFunction::Root, root, soprano, alto, tenor, bass),
        among_four(HarmonicFunction::Third, root, soprano, alto, tenor, bass),
{
    distinct_classes_bounds(root, soprano, alto, tenor, bass);
}

/// Validation passes exactly when the voices are in range and their pitch
/// classes are classified as a harmony.
pub proof fn harmony_verdict_is_ok_iff(
    root: u8,
    soprano: (u8, u8),
    alto: (u8, u8),
    tenor: (u8, u8),
    bass: (u8, u8),
)
    ensures
        harmony_verdict(root, soprano, alto, tenor, bass) is Ok <==> {
            &&& voices_in_range(soprano, alto, tenor, bass)
            &&& classification(root, soprano.0, alto.0, tenor.0, bass.0) is Ok
        },
{
    range_verdict_is_ok_iff_in_range(soprano, alto, tenor, bass);
}

/// Computes the function of a pitch class over a root.
pub fn harmonic_function(root: u8, pitch_class: u8) -> (function: HarmonicFunction)
    ensures
        function == function_above(root, pitch_class),
{
    if pitch_class == root {
        HarmonicFunction::Root
    } else if root.is_third(&pitch_class) {
        HarmonicFunction::Third
    } else if root.is_fifth(&pitch_class) {
        HarmonicFunction::Fifth
    } else if root.is_seventh(&pitch_class) {
        HarmonicFunction::Seventh
    } else {
        HarmonicFunction::Other
    }
}

/// Counts the pitch classes that the root and the four voices hold between
/// them. The voices are taken in the order bass, tenor, alto, soprano; one
/// counts if it differs from the root and from every voice before it.
pub fn count_distinct_classes(root: u8, soprano: u8, alto: u8, tenor: u8, bass: u8) -> (count: u8)
    ensures
        count == distinct_classes(root, soprano, alto, tenor, bass),
        1 <= count <= 5,
{
    let mut count: u8 = 1;
    if bass != root {
        count += 1;
    }
    if tenor != root && tenor != bass {
        count += 1;
    }
    if alto != root && alto != tenor && alto != bass {
        count += 1;
    }
    if soprano != root && soprano != alto && soprano != tenor && soprano != bass {
        count += 1;
    }
    count
}

/// Whether one of three functions is the given one.
fn holds(
    function: HarmonicFunction,
    first: HarmonicFunction,
    second: HarmonicFunction,
    third: HarmonicFunction,
) -> (yes: bool)
    ensures
        yes == (first == function || second == function || third == function),
{
    first == function || second == function || third == function
}

/// Whether the function is that of the root or of a third.
fn root_or_third(function: HarmonicFunction) -> (yes: bool)
    ensures
        yes == (function is Root || function is Third),
{
    function == HarmonicFunction::Root || function == HarmonicFunction::Third
}

/// `Ok` where the rule holds, and the error of an unfilled function where it
/// does not.
fn fill(rule_holds: bool) -> (verdict: Result<(), HarmonyError>)
    ensures
        verdict == filled(rule_holds),
{
    if rule_holds {
        Ok(())
    } else {
        Err(HarmonyError::IncompleteHarmonicFunction)
    }
}

/// Classifies the pitch classes of four voices over a root: `Ok` for a
/// harmony that the rules allow, and otherwise the first rule that is broken.
pub fn classify_harmony(
    root: u8,
    soprano: u8,
    alto: u8,
    tenor: u8,
    bass: u8,
) -> (verdict: Result<(), HarmonyError>)
    ensures
        verdict == classification(root, soprano, alto, tenor, bass),
{
    let in_soprano = harmonic_function(root, soprano);
    let in_alto = harmonic_function(root, alto);
    let in_tenor = harmonic_function(root, tenor);
    let in_bass = harmonic_function(root, bass);
    let upper_root = holds(HarmonicFunction::Root, in_tenor, in_alto, in_soprano);
    let upper_third = holds(HarmonicFunction::Third, in_tenor, in_alto, in_soprano);
    let upper_fifth = holds(HarmonicFunction::Fifth, in_tenor, in_alto, in_soprano);
    if !(in_bass == HarmonicFunction::Root || upper_root) {
        return Err(HarmonyError::NoRootPresent);
    }
    let count: u8 = count_distinct_classes(root, soprano, alto, tenor, bass);
    if count == 2 {
        fill(
            root_or_third(in_soprano) && root_or_third(in_alto) && root_or_third(in_tenor)
                && root_or_third(in_bass),
        )
    } else if count == 3 {
        match in_bass {
            HarmonicFunction::Root => fill(upper_root && upper_third && upper_fifth),
            HarmonicFunction::Third => {
                let diminished = root.dist(&soprano) == 6 || root.dist(&alto) == 6
                    || root.dist(&tenor) == 6;
                if diminished {
                    fill(upper_third)
                } else {
                    fill(!upper_third && upper_root && upper_fifth)
                }
            },
            HarmonicFunction::Fifth => fill(upper_fifth && upper_third && upper_root),
            _ => Err(HarmonyError::InvalidBassFunction),
        }
    } else if count == 4 {
        let upper_seventh = holds(HarmonicFunction::Seventh, in_tenor, in_alto, in_soprano);
        fill(
            (in_bass == HarmonicFunction::Third || upper_third)
                && (in_bass == HarmonicFunction::Fifth || upper_fifth)
                && (in_bass == HarmonicFunction::Seventh || upper_seventh),
        )
    } else {
        Err(HarmonyError::InvalidVoiceCount)
    }
}

/// Checks four voices, each given as `(pitch_class, octave)`, over a root:
/// registers and spacing first, then the classification of the pitch classes.
/// Returns `Ok` for a harmony that the rules allow, and otherwise the first
/// rule that is broken.
pub fn check_harmony(
    root: u8,
    soprano: (u8, u8),
    alto: (u8, u8),
    tenor: (u8, u8),
    bass: (u8, u8),
) -> (verdict: Result<(), HarmonyError>)
    ensures
        verdict == harmony_verdict(root, soprano, alto, tenor, bass),
{
    match check_voice_ranges(soprano, alto, tenor, bass) {
        Err(fault) => Err(fault),
        Ok(()) => classify_harmony(root, soprano.0, alto.0, tenor.0, bass.0),
    }
}

/// Decides whether four voices, each given as `(pitch_class, octave)`, form a
/// harmony over the root by the rules of traditional four-part writing.
pub fn validate_harmony(
    root: u8,
    soprano: (u8, u8),
    alto: (u8, u8),
    tenor: (u8, u8),
    bass: (u8, u8),
) -> (ok: bool)
    ensures
        ok == harmony_verdict(root, soprano, alto, tenor, bass) is Ok,
{
    check_harmony(root, soprano, alto, tenor, bass).is_ok()
}

} // verus!
