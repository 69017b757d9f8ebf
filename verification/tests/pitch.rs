use twelve_et::{
    Pitch, A_440_FREQUENCY_BITS, A_440_HALFSTEPS_FROM_0, A_440_OCTAVE,
    SEMITONE_FREQUENCY_RATIO_BITS,
};

/// The equal-tempered frequency of a pitch: 440 Hz times the semitone ratio
/// raised to the number of half steps above the A of 440 Hz.
fn frequency_of(pitch_class: u8, octave: u8) -> f64 {
    f64::from_bits(A_440_FREQUENCY_BITS)
        * f64::powi(
            f64::from_bits(SEMITONE_FREQUENCY_RATIO_BITS),
            Pitch::half_steps_from_a440(pitch_class, octave),
        )
}

#[test]
fn test_create_new_pitch() {
    let a_440 = Pitch::new(A_440_FREQUENCY_BITS, 9, 4);
    println!("{:?}", a_440);
    assert_eq!(a_440, Pitch::new(A_440_FREQUENCY_BITS, 9, 4));
}

#[test]
fn test_compute_half_steps_from_zero() {
    let middle_c = Pitch::compute_half_steps_from_zero(0, 4);
    println!("{}", middle_c);
    assert_eq!(middle_c, 36);

    let a_440 = Pitch::compute_half_steps_from_zero(9, 4);
    println!("{}", a_440);
    assert_eq!(a_440, A_440_HALFSTEPS_FROM_0);
}

#[test]
fn test_compute_frequency() {
    let a_440 = frequency_of(9, 4);
    println!("{}", a_440);
    assert_eq!(a_440, 440.0_f64);

    let middle_c = frequency_of(0, 4);
    println!("{}", middle_c);
    println!("{}", f64::abs(middle_c - 261.625580_f64));
    assert!(f64::abs(middle_c - 261.625580_f64) < 0.0001_f64);
}

#[test]
fn constants_stand_for_the_reference_pitch() {
    assert_eq!(f64::from_bits(A_440_FREQUENCY_BITS), 440.0_f64);
    assert_eq!(A_440_FREQUENCY_BITS, 440.0_f64.to_bits());
    assert_eq!(f64::from_bits(SEMITONE_FREQUENCY_RATIO_BITS), 1.059463094_f64);
    assert_eq!(A_440_OCTAVE, 4);
    assert_eq!(A_440_HALFSTEPS_FROM_0, 45);
    assert_eq!(Pitch::compute_half_steps_from_zero(9, A_440_OCTAVE), 45);
}

#[test]
fn half_steps_in_octave_zero_are_the_pitch_class() {
    assert_eq!(Pitch::compute_half_steps_from_zero(0, 0), 0);
    assert_eq!(Pitch::compute_half_steps_from_zero(5, 0), 5);
    assert_eq!(Pitch::compute_half_steps_from_zero(11, 0), 11);
    // Octave one has nothing below it either.
    assert_eq!(Pitch::compute_half_steps_from_zero(0, 1), 0);
    assert_eq!(Pitch::compute_half_steps_from_zero(11, 1), 11);
    assert_eq!(Pitch::compute_half_steps_from_zero(0, 2), 12);
}

#[test]
fn half_steps_at_the_limits_of_the_arguments() {
    assert_eq!(Pitch::compute_half_steps_from_zero(255, 255), 254 * 12 + 255);
    assert_eq!(Pitch::compute_half_steps_from_zero(255, 0), 255);
    assert_eq!(Pitch::compute_half_steps_from_zero(0, 255), 3048);
}

#[test]
fn half_steps_from_a440_are_counted_from_the_reference() {
    assert_eq!(Pitch::half_steps_from_a440(9, 4), 0);
    assert_eq!(Pitch::half_steps_from_a440(0, 4), -9);
    assert_eq!(Pitch::half_steps_from_a440(9, 5), 12);
    assert_eq!(Pitch::half_steps_from_a440(0, 0), -45);
    assert_eq!(Pitch::half_steps_from_a440(255, 255), 3303 - 45);
}

#[test]
fn an_octave_doubles_the_frequency_nearly() {
    let a_880 = frequency_of(9, 5);
    assert!(f64::abs(a_880 - 880.0) < 0.001);
    let a_220 = frequency_of(9, 3);
    assert!(f64::abs(a_220 - 220.0) < 0.001);
}

#[test]
fn pitch_hands_back_what_it_was_made_of() {
    let pitch = Pitch::new(261.63_f64.to_bits(), 0, 4);
    assert_eq!(pitch.frequency_bits(), 261.63_f64.to_bits());
    assert_eq!(f64::from_bits(pitch.frequency_bits()), 261.63);
    assert_eq!(pitch.pitch_class(), 0);
    assert_eq!(pitch.octave(), 4);
    assert_eq!(pitch.half_steps_from_zero(), 36);
}

#[test]
fn pitch_caches_its_half_steps() {
    for octave in 0..=255u8 {
        for pitch_class in 0..=255u8 {
            let pitch = Pitch::new(0, pitch_class, octave);
            assert_eq!(
                pitch.half_steps_from_zero(),
                Pitch::compute_half_steps_from_zero(pitch_class, octave)
            );
        }
    }
}

#[test]
fn pitch_does_not_tie_frequency_to_pitch_class() {
    let mistuned = Pitch::new(1.0_f64.to_bits(), 9, 4);
    assert_eq!(f64::from_bits(mistuned.frequency_bits()), 1.0);
    assert_eq!(mistuned.half_steps_from_zero(), 45);
}

#[test]
fn pitches_are_compared_by_value() {
    let a_440 = Pitch::new(A_440_FREQUENCY_BITS, 9, 4);
    let copy = a_440;
    assert_eq!(a_440, copy);
    assert_ne!(a_440, Pitch::new(A_440_FREQUENCY_BITS, 9, 5));
    assert_ne!(a_440, Pitch::new(A_440_FREQUENCY_BITS, 8, 4));
    assert_ne!(a_440, Pitch::new(441.0_f64.to_bits(), 9, 4));
}

#[test]
fn note_names_of_the_twelve_pitch_classes() {
    let names = [
        "C4", "C#/Db4", "D4", "D#/Eb4", "E4", "F4", "F#/Gb4", "G4", "G#/Ab4", "A4", "A#/Bb4",
        "B4",
    ];
    for pitch_class in 0..12u8 {
        let pitch = Pitch::new(0, pitch_class, 4);
        assert_eq!(pitch.note_name(), names[pitch_class as usize]);
    }
}

#[test]
fn note_names_write_the_octave_in_decimal() {
    assert_eq!(Pitch::new(0, 0, 0).note_name(), "C0");
    assert_eq!(Pitch::new(0, 9, 9).note_name(), "A9");
    assert_eq!(Pitch::new(0, 9, 10).note_name(), "A10");
    assert_eq!(Pitch::new(0, 1, 99).note_name(), "C#/Db99");
    assert_eq!(Pitch::new(0, 2, 100).note_name(), "D100");
    assert_eq!(Pitch::new(0, 2, 105).note_name(), "D105");
    assert_eq!(Pitch::new(0, 11, 255).note_name(), "B255");
    for octave in 0..=255u8 {
        assert_eq!(Pitch::new(0, 7, octave).note_name(), format!("G{}", octave));
    }
}

#[test]
fn note_names_beyond_the_twelve_pitch_classes_are_b() {
    assert_eq!(Pitch::new(0, 12, 3).note_name(), "B3");
    assert_eq!(Pitch::new(0, 255, 3).note_name(), "B3");
}
