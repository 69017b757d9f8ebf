//! A pitch: a pitch class in an octave, together with the frequency that its
//! maker assigned to it.
use vstd::prelude::*;
use vstd::string::*;

verus! {

/// The frequency of the A above middle C, 440 Hz, as the bit pattern of an
/// IEEE 754 double.
pub const A_440_FREQUENCY_BITS: u64 = 0x407B_8000_0000_0000;

/// The octave in which the A of 440 Hz lies.
pub const A_440_OCTAVE: u8 = 4;

/// The number of half steps from zero up to the A of 440 Hz.
pub const A_440_HALFSTEPS_FROM_0: u32 = 45;

/// The ratio between the frequencies of two neighbouring semitones,
/// 1.059463094, as the bit pattern of an IEEE 754 double.
pub const SEMITONE_FREQUENCY_RATIO_BITS: u64 = 0x3FF0_F38F_92C0_C899;

/// How many half steps a pitch lies above zero. Octave zero has no octave
/// below it, so there the pitch class alone counts.
pub open spec fn half_steps_from_zero(pitch_class: int, octave: int) -> int {
    if octave == 0 {
        pitch_class
    } else {
        (octave - 1) * 12 + pitch_class
    }
}

/// The letters of a pitch class. The five classes that fall between the
/// naturals carry both their sharp and their flat spelling. Every class from
/// eleven on is spelled as B.
pub open spec fn note_letters(pitch_class: u8) -> Seq<char> {
    match pitch_class {
        0 => "C"@,
        1 => "C#/Db"@,
        2 => "D"@,
        3 => "D#/Eb"@,
        4 => "E"@,
        5 => "F"@,
        6 => "F#/Gb"@,
        7 => "G"@,
        8 => "G#/Ab"@,
        9 => "A"@,
        10 => "A#/Bb"@,
        _ => "B"@,
    }
}

/// The character of a single decimal digit: the digits follow one another
/// from `'0'`, which has the code 48.
pub open spec fn digit_char(digit: nat) -> char {
    ((48 + digit) as u8) as char
}

/// A number written in decimal, without leading zeros.
pub open spec fn decimal_digits(n: nat) -> Seq<char>
    decreases n,
{
    if n < 10 {
        seq![digit_char(n)]
    } else {
        decimal_digits(n / 10).push(digit_char(n % 10))
    }
}

/// What a pitch is, apart from what it caches.
pub struct PitchView {
    /// The frequency in hertz, as the bit pattern of an IEEE 754 double.
    pub frequency_bits: u64,
    /// The pitch class: `0` for C up to `11` for B.
    pub pitch_class: u8,
    /// The octave in which the pitch lies.
    pub octave: u8,
}

/// A pitch in twelve-tone equal temperament. It is a value: made once and
/// compared field by field.
///
/// The frequency is taken as given. Nothing ties it to the frequency that
/// equal temperament assigns to the pitch class and octave.
#[derive(Debug, Copy, Clone, PartialEq, Eq, Structural)]
pub struct Pitch {
    /// The frequency of the pitch in hertz, as the bit pattern of a double.
    frequency_bits: u64,
    /// The pitch class, an integer modulo twelve.
    pitch_class: u8,
    /// The octave in which the pitch lies.
    octave: u8,
    /// The number of half steps from zero up to the pitch.
    half_steps_from_0: u32,
}

impl View for Pitch {
    type V = PitchView;

    closed spec fn view(&self) -> PitchView {
        PitchView {
            frequency_bits: self.frequency_bits,
            pitch_class: self.pitch_class,
            octave: self.octave,
        }
    }
}

impl Pitch {
    /// The cached number of half steps is the one that the pitch class and the
    /// octave give.
    #[verifier::type_invariant]
    spec fn wf(self) -> bool {
        self.half_steps_from_0 == half_steps_from_zero(
            self.pitch_class as int,
            self.octave as int,
        )
    }

    /// The pitch as the pair `(pitch_class, octave)`.
    pub open spec fn voice(&self) -> (u8, u8) {
        (self@.pitch_class, self@.octave)
    }

    /// Makes a pitch of the given frequency, pitch class and octave.
    pub fn new(frequency_bits: u64, pitch_class: u8, octave: u8) -> (pitch: Self)
        ensures
            pitch@ == (PitchView { frequency_bits, pitch_class, octave }),
    {
        let half_steps_from_0 = Pitch::compute_half_steps_from_zero(pitch_class, octave);
        Pitch { frequency_bits, pitch_class, octave, half_steps_from_0 }
    }

    /// Computes how many half steps the pitch of the given class and octave
    /// lies above zero.
    pub fn compute_half_steps_from_zero(pitch_class: u8, octave: u8) -> (half_steps: u32)
        ensures
            half_steps == half_steps_from_zero(pitch_class as int, octave as int),
    {
        if octave > 0 {
            (octave as u32 - 1) * 12 + (pitch_class as u32)
        } else {
            pitch_class as u32
        }
    }

    /// Computes how many half steps the pitch of the given class and octave
    /// lies above the A of 440 Hz; below it the number is negative. The
    /// equal-tempered frequency of the pitch is 440 Hz times the semitone
    /// ratio raised to this power.
    pub fn half_steps_from_a440(pitch_class: u8, octave: u8) -> (half_steps: i32)
        ensures
            half_steps == half_steps_from_zero(pitch_class as int, octave as int) - 45,
    {
        let from_zero: u32 = Pitch::compute_half_steps_from_zero(pitch_class, octave);
        (from_zero as i32) - (A_440_HALFSTEPS_FROM_0 as i32)
    }

    /// The frequency, as the bit pattern of a double.
    pub fn frequency_bits(&self) -> (bits: u64)
        ensures
            bits == self@.frequency_bits,
    {
        self.frequency_bits
    }

    /// The pitch class.
    pub fn pitch_class(&self) -> (pitch_class: u8)
        ensures
            pitch_class == self@.pitch_class,
    {
        self.pitch_class
    }

    /// The octave.
    pub fn octave(&self) -> (octave: u8)
        ensures
            octave == self@.octave,
    {
        self.octave
    }

    /// The number of half steps from zero up to the pitch.
    pub fn half_steps_from_zero(&self) -> (half_steps: u32)
        ensures
            half_steps == half_steps_from_zero(self@.pitch_class as int, self@.octave as int),
    {
        proof {
            use_type_invariant(self);
        }
        self.half_steps_from_0
    }

    /// The name of the note: the letters of the pitch class, then the octave
    /// in decimal.
    pub fn note_name(&self) -> (name: String)
        ensures
            name@ == note_letters(self@.pitch_class) + decimal_digits(self@.octave as nat),
    {
        let letters: &str = match self.pitch_class {
            0 => "C",
            1 => "C#/Db",
            2 => "D",
            3 => "D#/Eb",
            4 => "E",
            5 => "F",
            6 => "F#/Gb",
            7 => "G",
            8 => "G#/Ab",
            9 => "A",
            10 => "A#/Bb",
            _ => "B",
        };
        let mut name: String = String::from_str(letters);
        append_decimal(&mut name, self.octave);
        name
    }
}

/// The text of one decimal digit.
fn digit_text(digit: u8) -> (text: &'static str)
    requires
        digit < 10,
    ensures
        text@ == seq![digit_char(digit as nat)],
{
    proof {
        reveal_strlit("0");
        reveal_strlit("1");
        reveal_strlit("2");
        reveal_strlit("3");
        reveal_strlit("4");
        reveal_strlit("5");
        reveal_strlit("6");
        reveal_strlit("7");
        reveal_strlit("8");
        reveal_strlit("9");
    }
    match digit {
        0 => "0",
        1 => "1",
        2 => "2",
        3 => "3",
        4 => "4",
        5 => "5",
        6 => "6",
        7 => "7",
        8 => "8",
        _ => "9",
    }
}

/// Writes `n` in decimal at the end of `text`.
fn append_decimal(text: &mut String, n: u8)
    ensures
        final(text)@ == old(text)@ + decimal_digits(n as nat),
{
    reveal_with_fuel(decimal_digits, 3);
    if n >= 100 {
        text.append(digit_text(n / 100));
    }
    if n >= 10 {
        text.append(digit_text((n / 10) % 10));
    }
    text.append(digit_text(n % 10));
}

} // verus!
