//! A harmony of four voices: soprano, alto, tenor and bass over a root.
use crate::error::HarmonyError;
use crate::harmony::{check_harmony, harmony_verdict, validate_harmony};
use crate::pitch::{Pitch, PitchView};
use crate::register::{validate_voice_ranges, voices_in_range};
use std::collections::HashSet;
use vstd::prelude::*;

verus! {

broadcast use vstd::std_specs::hash::group_hash_axioms;

/// What a harmony is: its four voices and its root.
pub struct SatbView {
    /// The soprano, the highest voice.
    pub soprano: PitchView,
    /// The alto.
    pub alto: PitchView,
    /// The tenor.
    pub tenor: PitchView,
    /// The bass, the lowest voice.
    pub bass: PitchView,
    /// The pitch class of the root.
    pub root: u8,
}

impl SatbView {
    /// The pitch classes that the four voices sound.
    pub open spec fn pitch_classes(self) -> Set<u8> {
        set![
            self.soprano.pitch_class,
            self.alto.pitch_class,
            self.tenor.pitch_class,
            self.bass.pitch_class,
        ]
    }

    /// The voices form a harmony over the root by the rules of traditional
    /// four-part writing.
    pub open spec fn traditional(self) -> bool {
        harmony_verdict(
            self.root,
            (self.soprano.pitch_class, self.soprano.octave),
            (self.alto.pitch_class, self.alto.octave),
            (self.tenor.pitch_class, self.tenor.octave),
            (self.bass.pitch_class, self.bass.octave),
        ) is Ok
    }
}

/// A harmony of traditional four-part writing. It is made once and never
/// changed: to alter a voice, make a new harmony.
///
/// `new` admits only what the rules allow. `new_unchecked` admits any four
/// voices, for voicings that the rules would turn down.
pub struct SATB {
    soprano: Pitch,
    alto: Pitch,
    tenor: Pitch,
    bass: Pitch,
    /// The pitch class of the root.
    root: u8,
    /// The pitch classes that the four voices sound.
    pitch_classes: HashSet<u8>,
}

impl View for SATB {
    type V = SatbView;

    closed spec fn view(&self) -> SatbView {
        SatbView {
            soprano: self.soprano@,
            alto: self.alto@,
            tenor: self.tenor@,
            bass: self.bass@,
            root: self.root,
        }
    }
}

impl SATB {
    /// The set of pitch classes holds what the four voices sound, and nothing
    /// else.
    #[verifier::type_invariant]
    spec fn wf(self) -> bool {
        self.pitch_classes@ == self@.pitch_classes()
    }

    /// Whether each of the four voices lies in the register of its part, and
    /// neighbouring voices are spaced as they must be.
    pub fn validate_voice_ranges(
        soprano: &Pitch,
        alto: &Pitch,
        tenor: &Pitch,
        bass: &Pitch,
    ) -> (ok: bool)
        ensures
            ok == voices_in_range(soprano.voice(), alto.voice(), tenor.voice(), bass.voice()),
    {
        validate_voice_ranges(
            (soprano.pitch_class(), soprano.octave()),
            (alto.pitch_class(), alto.octave()),
            (tenor.pitch_class(), tenor.octave()),
            (bass.pitch_class(), bass.octave()),
        )
    }

    /// Whether the four voices form a harmony over the root by the rules of
    /// traditional four-part writing.
    pub fn validate_harmony(
        root: u8,
        soprano: &Pitch,
        alto: &Pitch,
        tenor: &Pitch,
        bass: &Pitch,
    ) -> (ok: bool)
        ensures
            ok == harmony_verdict(
                root,
                soprano.voice(),
                alto.voice(),
                tenor.voice(),
                bass.voice(),
            ) is Ok,
    {
        validate_harmony(
            root,
            (soprano.pitch_class(), soprano.octave()),
            (alto.pitch_class(), alto.octave()),
            (tenor.pitch_class(), tenor.octave()),
            (bass.pitch_class(), bass.octave()),
        )
    }

    /// Makes a harmony of the four voices over the root, if the rules allow
    /// it. Otherwise returns the first rule that is broken.
    pub fn new(
        root: u8,
        soprano: Pitch,
        alto: Pitch,
        tenor: Pitch,
        bass: Pitch,
    ) -> (made: Result<Self, HarmonyError>)
        ensures
            match made {
                Ok(harmony) => {
                    &&& harmony@ == (SatbView {
                        soprano: soprano@,
                        alto: alto@,
                        tenor: tenor@,
                        bass: bass@,
                        root,
                    })
                    &&& harmony@.traditional()
                },
                Err(fault) => harmony_verdict(
                    root,
                    soprano.voice(),
                    alto.voice(),
                    tenor.voice(),
                    bass.voice(),
                ) == Err::<(), HarmonyError>(fault),
            },
    {
        let verdict = check_harmony(
            root,
            (soprano.pitch_class(), soprano.octave()),
            (alto.pitch_class(), alto.octave()),
            (tenor.pitch_class(), tenor.octave()),
            (bass.pitch_class(), bass.octave()),
        );
        match verdict {
            Err(fault) => Err(fault),
            Ok(()) => Ok(SATB::new_unchecked(root, soprano, alto, tenor, bass)),
        }
    }

    /// Makes a harmony of the four voices over the root without checking any
    /// rule.
    pub fn new_unchecked(
        root: u8,
        soprano: Pitch,
        alto: Pitch,
        tenor: Pitch,
        bass: Pitch,
    ) -> (harmony: Self)
        ensures
            harmony@ == (SatbView { soprano: soprano@, alto: alto@, tenor: tenor@, bass: bass@, root }),
    {
        let mut pitch_classes: HashSet<u8> = HashSet::new();
        pitch_classes.insert(soprano.pitch_class());
        pitch_classes.insert(alto.pitch_class());
        pitch_classes.insert(tenor.pitch_class());
        pitch_classes.insert(bass.pitch_class());
        SATB { soprano, alto, tenor, bass, root, pitch_classes }
    }

    /// The soprano.
    pub fn soprano(&self) -> (voice: Pitch)
        ensures
            voice@ == self@.soprano,
    {
        self.soprano
    }

    /// The alto.
    pub fn alto(&self) -> (voice: Pitch)
        ensures
            voice@ == self@.alto,
    {
        self.alto
    }

    /// The tenor.
    pub fn tenor(&self) -> (voice: Pitch)
        ensures
            voice@ == self@.tenor,
    {
        self.tenor
    }

    /// The bass.
    pub fn bass(&self) -> (voice: Pitch)
        ensures
            voice@ == self@.bass,
    {
        self.bass
    }

    /// The pitch class of the root.
    pub fn root(&self) -> (root: u8)
        ensures
            root == self@.root,
    {
        self.root
    }

    /// Whether one of the four voices sounds the pitch class.
    pub fn has_pitch_class(&self, pitch_class: u8) -> (yes: bool)
        ensures
            yes == self@.pitch_classes().contains(pitch_class),
    {
        proof {
            use_type_invariant(self);
        }
        self.pitch_classes.contains(&pitch_class)
    }

    /// The number of pitch classes that the four voices sound.
    pub fn pitch_class_count(&self) -> (count: usize)
        ensures
            count == self@.pitch_classes().len(),
            1 <= count <= 4,
    {
        proof {
            use_type_invariant(self);
        }
        self.pitch_classes.len()
    }
}

} // verus!
