//! The sampling grid of a sound wave.
use vstd::arithmetic::div_mod::lemma_fundamental_div_mod_converse;
use vstd::prelude::*;

verus! {

/// The grid on which a wave of `duration` seconds is sampled at `sample_freq`
/// samples a second. Entry `k` says how many sample periods have passed since
/// the start of its second when sample `k` is taken.
pub open spec fn tick_grid(duration: nat, sample_freq: nat) -> Seq<u32> {
    Seq::new(duration * sample_freq, |k: int| (k % sample_freq as int) as u32)
}

/// Lays out the sampling grid of a wave of `duration` whole seconds at
/// `sample_freq` samples a second: second after second, the ticks `0` up to
/// `sample_freq - 1`. The sample at tick `i` is taken `i / sample_freq`
/// seconds into its second.
pub fn sample_ticks(duration: u32, sample_freq: u32) -> (ticks: Vec<u32>)
    ensures
        ticks@ == tick_grid(duration as nat, sample_freq as nat),
        ticks@.len() == duration * sample_freq,
        forall|k: int| 0 <= k < ticks@.len() ==> ticks@[k] == k % (sample_freq as int),
{
    let mut ticks: Vec<u32> = Vec::new();
    let mut second: u32 = 0;
    while second < duration
        invariant
            second <= duration,
            ticks@.len() == second * sample_freq,
            forall|k: int| 0 <= k < ticks@.len() ==> ticks@[k] == k % (sample_freq as int),
        decreases duration - second,
    {
        let mut tick: u32 = 0;
        while tick < sample_freq
            invariant
                tick <= sample_freq,
                ticks@.len() == second * sample_freq + tick,
                forall|k: int| 0 <= k < ticks@.len() ==> ticks@[k] == k % (sample_freq as int),
            decreases sample_freq - tick,
        {
            proof {
                lemma_fundamental_div_mod_converse(
                    second * sample_freq + tick,
                    sample_freq as int,
                    second as int,
                    tick as int,
                );
            }
            ticks.push(tick);
            tick += 1;
        }
        assert((second + 1) * sample_freq == second * sample_freq + sample_freq)
            by (nonlinear_arith);
        second += 1;
    }
    ticks
}

} // verus!
