use std::f64::consts::PI;
use twelve_et::{sample_ticks, Pitch, SATB};

#[test]
fn ticks_of_one_second() {
    assert_eq!(sample_ticks(1, 4), vec![0, 1, 2, 3]);
    assert_eq!(sample_ticks(1, 1), vec![0]);
}

#[test]
fn ticks_start_again_with_each_second() {
    assert_eq!(sample_ticks(2, 3), vec![0, 1, 2, 0, 1, 2]);
    assert_eq!(sample_ticks(3, 1), vec![0, 0, 0]);
}

#[test]
fn no_time_or_no_rate_gives_no_ticks() {
    assert_eq!(sample_ticks(0, 5), Vec::<u32>::new());
    assert_eq!(sample_ticks(5, 0), Vec::<u32>::new());
    assert_eq!(sample_ticks(0, 0), Vec::<u32>::new());
}

#[test]
fn there_are_as_many_ticks_as_seconds_times_rate() {
    let ticks = sample_ticks(5, 44100);
    assert_eq!(ticks.len(), 5 * 44100);
    for (k, tick) in ticks.iter().enumerate() {
        assert_eq!(*tick as usize, k % 44100);
    }
}

#[test]
fn a_wave_of_four_samples() {
    let harmony = SATB::new_unchecked(
        0,
        Pitch::new(523.25_f64.to_bits(), 0, 5),
        Pitch::new(329.63_f64.to_bits(), 4, 4),
        Pitch::new(196.00_f64.to_bits(), 7, 3),
        Pitch::new(130.81_f64.to_bits(), 0, 3),
    );
    let voices = [harmony.soprano(), harmony.alto(), harmony.tenor(), harmony.bass()];
    let sample_freq = 4u32;
    let wave: Vec<f64> = sample_ticks(1, sample_freq)
        .into_iter()
        .map(|tick| {
            let t = (tick as f64) / (sample_freq as f64);
            voices
                .iter()
                .map(|voice| f64::sin(f64::from_bits(voice.frequency_bits()) * 2.0 * PI * t))
                .sum()
        })
        .collect();
    assert_eq!(wave.len(), 4);
    let times = [0.0_f64, 0.25, 0.5, 0.75];
    for (sample, t) in wave.iter().zip(times) {
        let expected = f64::sin(523.25 * 2.0 * PI * t)
            + f64::sin(329.63 * 2.0 * PI * t)
            + f64::sin(196.00 * 2.0 * PI * t)
            + f64::sin(130.81 * 2.0 * PI * t);
        assert!(f64::abs(sample - expected) < 1e-9);
        assert!(f64::abs(*sample) <= 4.0);
    }
    assert_eq!(wave[0], 0.0);
}
