//! Interval arithmetic on pitch classes, modulo twelve, and the distance in
//! semitones between two pitches.
use std::ops::{Add, Rem, Sub};
use vstd::prelude::*;

verus! {

/// The number of semitones that one has to climb from pitch class `from` to
/// arrive at pitch class `to`, counted modulo twelve.
///
/// The measure is directed: climbing from E to G takes three semitones,
/// climbing from G to E takes nine.
pub open spec fn semitones_up(from: int, to: int) -> int {
    if from > to {
        (to + (12 - from)) % 12
    } else {
        to - from
    }
}

/// `to` lies a minor or a major third above `from`.
pub open spec fn third_above(from: int, to: int) -> bool {
    semitones_up(from, to) == 3 || semitones_up(from, to) == 4
}

/// `to` lies a diminished or a perfect fifth above `from`.
pub open spec fn fifth_above(from: int, to: int) -> bool {
    semitones_up(from, to) == 6 || semitones_up(from, to) == 7
}

/// `to` lies a diminished, a minor or a major seventh above `from`.
pub open spec fn seventh_above(from: int, to: int) -> bool {
    semitones_up(from, to) == 9 || semitones_up(from, to) == 10 || semitones_up(from, to) == 11
}

/// Arithmetic modulo twelve, for comparing pitch classes that are represented
/// as integers.
pub trait PitchClassArithmetic<T>: Sized where T: Sized + Add<T> + Sub<T> + Rem<T> {
    /// The distance in half steps from `self` up to `other`.
    fn dist(&self, other: &Self) -> Self;

    /// Whether the interval from `self` up to `other` is a third.
    fn is_third(&self, other: &Self) -> bool;

    /// Whether the interval from `self` up to `other` is a fifth.
    fn is_fifth(&self, other: &Self) -> bool;

    /// Whether the interval from `self` up to `other` is a seventh.
    fn is_seventh(&self, other: &Self) -> bool;
}

impl PitchClassArithmetic<u8> for u8 {
    fn dist(&self, other: &Self) -> (d: Self)
        ensures
            d == semitones_up(*self as int, *other as int),
            *self > *other ==> d < 12,
            *self < 12 && *other < 12 ==> d < 12,
    {
        if *self > *other {
            let gap: u8 = (*self - *other) % 12;
            if gap == 0 {
                0
            } else {
                12 - gap
            }
        } else {
            *other - *self
        }
    }

    fn is_third(&self, other: &Self) -> (yes: bool)
        ensures
            yes == third_above(*self as int, *other as int),
    {
        let d: u8 = self.dist(other);
        d == 3 || d == 4
    }

    fn is_fifth(&self, other: &Self) -> (yes: bool)
        ensures
            yes == fifth_above(*self as int, *other as int),
    {
        let d: u8 = self.dist(other);
        d == 7 || d == 6
    }

    fn is_seventh(&self, other: &Self) -> (yes: bool)
        ensures
            yes == seventh_above(*self as int, *other as int),
    {
        let d: u8 = self.dist(other);
        d == 11 || d == 10 || d == 9
    }
}

/// The position of a pitch, given as `(pitch_class, octave)`, on the scale of
/// all semitones: twelve to the octave.
pub open spec fn absolute_semitone(pitch: (u8, u8)) -> int {
    12 * (pitch.1 as int) + (pitch.0 as int)
}

/// The number of semitones between two pitches, whichever of them is higher.
pub open spec fn semitone_distance(pitch1: (u8, u8), pitch2: (u8, u8)) -> int {
    if absolute_semitone(pitch1) >= absolute_semitone(pitch2) {
        absolute_semitone(pitch1) - absolute_semitone(pitch2)
    } else {
        absolute_semitone(pitch2) - absolute_semitone(pitch1)
    }
}

/// Computes the number of semitones between two pitches, each given as
/// `(pitch_class, octave)`. The result is the absolute difference: it does not
/// depend on the order of the arguments.
pub fn compute_semi_tone_dist(pitch1: (u8, u8), pitch2: (u8, u8)) -> (d: u32)
    ensures
        d == semitone_distance(pitch1, pitch2),
{
    let first: u32 = 12 * (pitch1.1 as u32) + (pitch1.0 as u32);
    let second: u32 = 12 * (pitch2.1 as u32) + (pitch2.0 as u32);
    if first >= second {
        first - second
    } else {
        second - first
    }
}

/// From a pitch class up to itself there is no distance.
pub proof fn dist_to_self_is_zero(pitch_class: int)
    ensures
        semitones_up(pitch_class, pitch_class) == 0,
{
}

/// Between two pitch classes of the octave the distance is the difference
/// modulo twelve, and so less than an octave.
pub proof fn dist_stays_within_octave(from: int, to: int)
    requires
        0 <= from < 12,
        0 <= to < 12,
    ensures
        0 <= semitones_up(from, to) < 12,
        semitones_up(from, to) == (to - from) % 12,
{
}

/// The distance is directed: between two different pitch classes of the
/// octave, the way up and the way back make an octave together.
pub proof fn dist_there_and_back(from: int, to: int)
    requires
        0 <= from < 12,
        0 <= to < 12,
        from != to,
    ensures
        semitones_up(from, to) + semitones_up(to, from) == 12,
{
}

/// No interval is of two kinds: thirds, fifths and sevenths have no distance
/// in common.
pub proof fn interval_kinds_are_disjoint(from: int, to: int)
    ensures
        !(third_above(from, to) && fifth_above(from, to)),
        !(third_above(from, to) && seventh_above(from, to)),
        !(fifth_above(from, to) && seventh_above(from, to)),
{
}

/// The distance between two pitches is the same in both directions, and zero
/// only between a pitch and itself on the scale of all semitones.
pub proof fn semitone_distance_is_symmetric(pitch1: (u8, u8), pitch2: (u8, u8))
    ensures
        semitone_distance(pitch1, pitch2) == semitone_distance(pitch2, pitch1),
        semitone_distance(pitch1, pitch2) >= 0,
        semitone_distance(pitch1, pitch2) == 0
            <==> absolute_semitone(pitch1) == absolute_semitone(pitch2),
{
}

} // verus!
