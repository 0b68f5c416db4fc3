//! Filling one audio chunk. The render callback tries, once per sample slot,
//! to take the shared synthesis state without waiting; each attempt yields a
//! sample or `Busy`. A busy slot is silent, and every channel of a slot gets
//! the same value.

use vstd::prelude::*;

verus! {

/// The shared synthesis state could not be taken without waiting (it is held
/// elsewhere, or was left poisoned).
#[derive(Clone, Copy, Debug, PartialEq, Eq, Structural)]
pub struct Busy;

/// The value a slot gets from its acquisition attempt.
pub open spec fn slot_value<T>(attempt: Result<T, Busy>, silence: T) -> T {
    match attempt {
        Ok(sample) => sample,
        Err(_) => silence,
    }
}

/// The value a slot gets from its acquisition attempt: the sample, or
/// `silence` when the state was busy.
pub fn sample_or_silence<T: Copy>(attempt: &Result<T, Busy>, silence: T) -> (r: T)
    ensures
        r == slot_value(*attempt, silence),
{
    match attempt {
        Ok(sample) => *sample,
        Err(_) => silence,
    }
}

/// Fills the interleaved buffer `out`, `channels` values per slot, from the
/// attempts of its slots in order (a last slot may be cut short). Never
/// waits: a busy slot is written as `silence`.
pub fn fill_chunk<T: Copy>(out: &mut [T], channels: usize, attempts: &Vec<Result<T, Busy>>, silence: T)
    requires
        channels > 0,
        old(out)@.len() <= attempts@.len() * channels,
    ensures
        final(out)@.len() == old(out)@.len(),
        forall|k: int|
            0 <= k < final(out)@.len() ==> #[trigger] final(out)@[k] == slot_value(
                attempts@[k / channels as int],
                silence,
            ),
{
    let n = out.len();
    let mut k: usize = 0;
    while k < n
        invariant
            channels > 0,
            n == out@.len(),
            n <= attempts@.len() * channels,
            k <= n,
            forall|j: int| 0 <= j < k ==> #[trigger] out@[j] == slot_value(attempts@[j / channels as int], silence),
        decreases n - k,
    {
        let slot = k / channels;
        proof {
            let (kk, c, m) = (k as int, channels as int, attempts@.len() as int);
            assert(kk / c < m) by (nonlinear_arith)
                requires
                    0 <= kk < m * c,
                    c > 0,
            ;
        }
        out[k] = sample_or_silence(&attempts[slot], silence);
        k = k + 1;
    }
}

} // verus!
