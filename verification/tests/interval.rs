use twelve_et::{compute_semi_tone_dist, PitchClassArithmetic};

#[test]
fn test_compute_semi_tone_dist() {
    let dist = compute_semi_tone_dist((4, 3), (7, 4));
    println!("{:?}", dist);
    assert_eq!(dist, 15);

    let dist = compute_semi_tone_dist((4, 4), (7, 4));
    println!("{:?}", dist);
    assert_eq!(dist, 3);

    let dist = compute_semi_tone_dist((4, 4), (0, 5));
    println!("{:?}", dist);
    assert_eq!(dist, 8);
}

#[test]
fn semi_tone_dist_ignores_the_order_of_its_arguments() {
    assert_eq!(compute_semi_tone_dist((7, 4), (4, 3)), 15);
    assert_eq!(compute_semi_tone_dist((7, 4), (4, 4)), 3);
    assert_eq!(compute_semi_tone_dist((0, 5), (4, 4)), 8);
    for octave in 0..8u8 {
        for pitch_class in 0..12u8 {
            let here = (pitch_class, octave);
            let there = (11 - pitch_class, 7 - octave);
            assert_eq!(
                compute_semi_tone_dist(here, there),
                compute_semi_tone_dist(there, here)
            );
        }
    }
}

#[test]
fn semi_tone_dist_of_a_pitch_to_itself_is_zero() {
    assert_eq!(compute_semi_tone_dist((9, 4), (9, 4)), 0);
    assert_eq!(compute_semi_tone_dist((0, 0), (0, 0)), 0);
    // A pitch class of twelve in octave 3 lies where C4 lies.
    assert_eq!(compute_semi_tone_dist((12, 3), (0, 4)), 0);
}

#[test]
fn semi_tone_dist_at_the_limits_of_its_arguments() {
    assert_eq!(compute_semi_tone_dist((0, 0), (255, 255)), 12 * 255 + 255);
    assert_eq!(compute_semi_tone_dist((200, 3), (0, 4)), 188);
    assert_eq!(compute_semi_tone_dist((11, 3), (0, 4)), 1);
}

#[test]
fn dist_of_a_pitch_class_to_itself_is_zero() {
    for x in 0..12u8 {
        assert_eq!(x.dist(&x), 0);
    }
    assert_eq!(200u8.dist(&200), 0);
}

#[test]
fn dist_stays_within_the_octave() {
    for a in 0..12u8 {
        for b in 0..12u8 {
            let d = a.dist(&b);
            assert!(d < 12);
            assert_eq!(d as i32, (b as i32 - a as i32).rem_euclid(12));
        }
    }
}

#[test]
fn dist_is_directed() {
    assert_eq!(4u8.dist(&7), 3);
    assert_eq!(7u8.dist(&4), 9);
    assert_eq!(0u8.dist(&11), 11);
    assert_eq!(11u8.dist(&0), 1);
    assert_eq!(2u8.dist(&0), 10);
    for a in 0..12u8 {
        for b in 0..12u8 {
            if a != b {
                assert_eq!(a.dist(&b) + b.dist(&a), 12);
            }
        }
    }
}

#[test]
fn dist_beyond_the_twelve_pitch_classes() {
    // Upwards the difference is not reduced.
    assert_eq!(0u8.dist(&200), 200);
    assert_eq!(12u8.dist(&30), 18);
    // Downwards it is taken modulo twelve.
    assert_eq!(12u8.dist(&0), 0);
    assert_eq!(13u8.dist(&0), 11);
    assert_eq!(200u8.dist(&0), 4);
    assert_eq!(255u8.dist(&254), 11);
}

#[test]
fn thirds_are_three_or_four_semitones() {
    assert!(0u8.is_third(&3));
    assert!(0u8.is_third(&4));
    assert!(!0u8.is_third(&2));
    assert!(!0u8.is_third(&5));
    assert!(9u8.is_third(&0));
    assert!(!0u8.is_third(&9));
    assert!(!5u8.is_third(&5));
}

#[test]
fn fifths_are_six_or_seven_semitones() {
    assert!(0u8.is_fifth(&6));
    assert!(0u8.is_fifth(&7));
    assert!(!0u8.is_fifth(&5));
    assert!(!0u8.is_fifth(&8));
    assert!(7u8.is_fifth(&2));
    assert!(11u8.is_fifth(&5));
    assert!(!2u8.is_fifth(&7));
}

#[test]
fn sevenths_are_nine_to_eleven_semitones() {
    assert!(0u8.is_seventh(&9));
    assert!(0u8.is_seventh(&10));
    assert!(0u8.is_seventh(&11));
    assert!(!0u8.is_seventh(&8));
    assert!(!0u8.is_seventh(&0));
    assert!(2u8.is_seventh(&0));
    assert!(7u8.is_seventh(&5));
}

#[test]
fn no_interval_is_of_two_kinds() {
    for a in 0..=255u8 {
        for b in 0..=255u8 {
            let kinds = [a.is_third(&b), a.is_fifth(&b), a.is_seventh(&b)];
            assert!(kinds.iter().filter(|kind| **kind).count() <= 1);
        }
    }
}
