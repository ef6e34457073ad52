use vstd::prelude::*;
use vstd::arithmetic::div_mod::{
    lemma_div_is_ordered, lemma_div_nonincreasing, lemma_div_of0, lemma_div_pos_is_pos,
    lemma_multiply_divide_le, lemma_multiply_divide_lt,
};
use vstd::arithmetic::mul::{
    lemma_mul_inequality, lemma_mul_nonnegative, lemma_mul_strict_inequality,
    lemma_mul_upper_bound,
};

use crate::scalar::Scalar;

verus! {

/// The playback rate enforced while the player must look legitimate:
/// 8 units, in milliunits.
pub open spec fn spec_compute_speed(legit: bool, multiplier: Scalar) -> Scalar {
    if legit {
        Scalar::Milli(8000)
    } else {
        multiplier
    }
}

/// Chooses the playback-speed multiplier: the fixed legitimate rate of
/// 8 units while `legit` holds, otherwise the caller's `multiplier`
/// unchanged. `_randomize` is accepted for interface symmetry and has no
/// effect here.
pub fn compute_speed(legit: bool, _randomize: bool, multiplier: Scalar) -> (r: Scalar)
    ensures
        r == spec_compute_speed(legit, multiplier),
{
    if legit {
        Scalar::Milli(8000)
    } else {
        multiplier
    }
}

/// The point `draw / 2^32` of the way from `lo` to `hi`, floored to a whole
/// milliunit. For `draw` ranging over `0 .. 2^32` this sweeps the interval
/// `[lo, hi)` — exactly `lo` when the interval is degenerate.
pub open spec fn spec_lerp(lo: int, hi: int, draw: int) -> int {
    lo + draw * (hi - lo) / 0x1_0000_0000
}

/// The legitimate-speed policy: the caller's `multiplier` unchanged while
/// `legit` is off; `legit_base` unchanged while `randomize` is off; otherwise
/// the interpolation point `draw / 2^32` of the way across the normalized
/// interval between `legit_min` and `legit_max`. The normalization takes the
/// bounds in either order; a bound that is `Undefined` defers to the other,
/// and only two `Undefined` bounds leave the result `Undefined`.
pub open spec fn spec_compute_legit_speed(
    legit: bool,
    randomize: bool,
    multiplier: Scalar,
    legit_min: Scalar,
    legit_max: Scalar,
    legit_base: Scalar,
    draw: u32,
) -> Scalar {
    if !legit {
        multiplier
    } else if !randomize {
        legit_base
    } else {
        match (legit_min.spec_min(legit_max), legit_max.spec_max(legit_min)) {
            (Scalar::Milli(lo), Scalar::Milli(hi)) => Scalar::Milli(
                spec_lerp(lo as int, hi as int, draw as int) as i64,
            ),
            _ => Scalar::Undefined,
        }
    }
}

/// What a randomized draw between `x` and `y` must satisfy, whatever the
/// sample was: a definite value within the normalized bounds — strictly below
/// the upper bound when the interval is non-degenerate, exactly the lower
/// bound when it is — and `Undefined` only when both bounds are.
pub open spec fn randomized_within_bounds(r: Scalar, x: Scalar, y: Scalar) -> bool {
    match (x.spec_min(y), y.spec_max(x)) {
        (Scalar::Milli(lo), Scalar::Milli(hi)) => match r {
            Scalar::Milli(v) => lo <= v <= hi && (lo < hi ==> v < hi) && (lo == hi ==> v == lo),
            Scalar::Undefined => false,
        },
        _ => r == Scalar::Undefined,
    }
}

/// Chooses the speed used while the player must look legitimate. While
/// `legit` is off the caller's `multiplier` passes through unchanged; with
/// `legit` on but `randomize` off, `legit_base` does. With both on, the
/// result is drawn from the interval between `legit_min` and `legit_max` —
/// taken in either order — at the point `draw / 2^32` of the way across, so
/// a uniformly drawn `draw` spreads the result uniformly (to milliunit
/// resolution) over `[min, max)`, and equal bounds give exactly that bound.
pub fn compute_legit_speed(
    legit: bool,
    randomize: bool,
    multiplier: Scalar,
    legit_min: Scalar,
    legit_max: Scalar,
    legit_base: Scalar,
    draw: u32,
) -> (r: Scalar)
    ensures
        r == spec_compute_legit_speed(
            legit,
            randomize,
            multiplier,
            legit_min,
            legit_max,
            legit_base,
            draw,
        ),
        !legit ==> r == multiplier,
        legit && !randomize ==> r == legit_base,
        legit && randomize ==> randomized_within_bounds(r, legit_min, legit_max),
{
    if !legit {
        return multiplier;
    }
    if !randomize {
        return legit_base;
    }
    let lo_s = legit_min.defined_min(legit_max);
    let hi_s = legit_max.defined_max(legit_min);
    match (lo_s, hi_s) {
        (Scalar::Milli(lo), Scalar::Milli(hi)) => {
            assert(lo <= hi);
            let d: u128 = ((hi as i128) - (lo as i128)) as u128;
            proof {
                lemma_mul_nonnegative(draw as int, d as int);
                lemma_mul_upper_bound(draw as int, 0xffff_ffff, d as int, 0xffff_ffff_ffff_ffff);
                lemma_mul_inequality(draw as int, 0x1_0000_0000, d as int);
                lemma_multiply_divide_le(draw as int * d as int, 0x1_0000_0000, d as int);
                lemma_div_pos_is_pos(draw as int * d as int, 0x1_0000_0000);
                if d > 0 {
                    lemma_mul_strict_inequality(draw as int, 0x1_0000_0000, d as int);
                    lemma_multiply_divide_lt(draw as int * d as int, 0x1_0000_0000, d as int);
                }
            }
            let num: u128 = (draw as u128) * d;
            let q: u128 = num / 0x1_0000_0000;
            let v: i128 = (lo as i128) + (q as i128);
            Scalar::Milli(v as i64)
        },
        _ => Scalar::Undefined,
    }
}

/// The ad-boundary pattern: a backward timestamp jump, observed past the
/// first second of playback, over a segment of definite positive length that
/// stayed under the caller's threshold.
pub open spec fn spec_is_ad_time_wrap(
    last_time: Scalar,
    current_time: Scalar,
    duration: Scalar,
    threshold: Scalar,
) -> bool {
    &&& current_time.spec_lt(last_time)
    &&& last_time.spec_gt(Scalar::Milli(1000))
    &&& duration.spec_gt(Scalar::Milli(0))
    &&& duration.spec_lt(threshold)
}

/// Flags a playback-position observation as an inserted-advertisement
/// boundary: true exactly when the position jumped backward, the jump came
/// after the first second of playback, and the observed segment had positive
/// length shorter than `threshold`. Any `Undefined` reading fails the
/// comparison it takes part in, so the heuristic fails closed.
pub fn is_ad_time_wrap(
    last_time: Scalar,
    current_time: Scalar,
    duration: Scalar,
    threshold: Scalar,
) -> (r: bool)
    ensures
        r == spec_is_ad_time_wrap(last_time, current_time, duration, threshold),
{
    current_time.is_below(last_time) && last_time.is_above(Scalar::Milli(1000))
        && duration.is_above(Scalar::Milli(0)) && duration.is_below(threshold)
}

/// The low-audio-advertisement pattern: a segment of definite positive
/// length, shorter than `max_ad_duration`, whose mean amplitude stayed under
/// `amp_threshold`.
pub open spec fn spec_evaluate_low_audio_ad(
    avg_amp: Scalar,
    duration: Scalar,
    max_ad_duration: Scalar,
    amp_threshold: Scalar,
) -> bool {
    &&& duration.spec_gt(Scalar::Milli(0))
    &&& duration.spec_lt(max_ad_duration)
    &&& avg_amp.spec_lt(amp_threshold)
}

/// Classifies a segment as a low-audio advertisement: true exactly when the
/// segment is short — positive length below `max_ad_duration` — and quiet,
/// its mean amplitude below `amp_threshold`. `Undefined` readings fail
/// their comparisons, so the classification fails closed.
pub fn evaluate_low_audio_ad(
    avg_amp: Scalar,
    duration: Scalar,
    max_ad_duration: Scalar,
    amp_threshold: Scalar,
) -> (r: bool)
    ensures
        r == spec_evaluate_low_audio_ad(avg_amp, duration, max_ad_duration, amp_threshold),
{
    duration.is_above(Scalar::Milli(0)) && duration.is_below(max_ad_duration)
        && avg_amp.is_below(amp_threshold)
}

/// The per-tick volume decrement that reaches zero in `steps` ticks: the
/// current volume split evenly over the ticks, floored at one milliunit so a
/// fade loop can never stall or run backward. With no ticks to spread over,
/// the whole volume clamped to non-negative is the single step. An
/// `Undefined` volume falls back to the one-milliunit floor.
pub open spec fn spec_volume_fade_step(current_volume: Scalar, steps: u32) -> Scalar {
    if steps == 0 {
        current_volume.spec_max(Scalar::Milli(0))
    } else {
        match current_volume {
            Scalar::Undefined => Scalar::Milli(1),
            Scalar::Milli(v) => {
                let raw = v as int / steps as int;
                if raw < 1 {
                    Scalar::Milli(1)
                } else {
                    Scalar::Milli(raw as i64)
                }
            },
        }
    }
}

/// Computes the per-tick decrement for a host-managed fade-out loop. For
/// `steps == 0` the result is the current volume clamped to non-negative: an
/// immediate full drop. Otherwise it is the volume divided over the ticks,
/// floored at one milliunit, so the result is always definite and strictly
/// positive — a zero or negative step would stall the fade or run it
/// backward.
pub fn volume_fade_step(current_volume: Scalar, steps: u32) -> (r: Scalar)
    ensures
        r == spec_volume_fade_step(current_volume, steps),
        steps != 0 ==> (r matches Scalar::Milli(s) && s >= 1),
        steps == 0 ==> (r matches Scalar::Milli(s) && s >= 0),
{
    if steps == 0 {
        return current_volume.defined_max(Scalar::Milli(0));
    }
    match current_volume {
        Scalar::Undefined => Scalar::Milli(1),
        Scalar::Milli(v) => {
            if v <= 0 {
                proof {
                    lemma_div_is_ordered(v as int, 0, steps as int);
                    lemma_div_of0(steps as int);
                }
                Scalar::Milli(1)
            } else {
                let q: u64 = (v as u64) / (steps as u64);
                proof {
                    lemma_div_pos_is_pos(v as int, steps as int);
                    lemma_div_nonincreasing(v as int, steps as int);
                }
                if q < 1 {
                    Scalar::Milli(1)
                } else {
                    Scalar::Milli(q as i64)
                }
            }
        },
    }
}

/// The total of a sequence of sample magnitudes, as an unbounded integer.
pub open spec fn seq_sum(s: Seq<u8>) -> int
    decreases s.len(),
{
    if s.len() == 0 {
        0
    } else {
        seq_sum(s.drop_last()) + s.last()
    }
}

/// A sum of byte magnitudes is non-negative and at most 255 per element.
pub proof fn lemma_seq_sum_bounds(s: Seq<u8>)
    ensures
        0 <= seq_sum(s) <= 255 * s.len(),
    decreases s.len(),
{
    if s.len() > 0 {
        lemma_seq_sum_bounds(s.drop_last());
    }
}

/// The mean sample magnitude in milliunits, rounded down; zero for an empty
/// buffer, so the quotient is never taken over a zero count.
pub open spec fn spec_avg_u8(s: Seq<u8>) -> Scalar {
    if s.len() == 0 {
        Scalar::Milli(0)
    } else {
        Scalar::Milli((seq_sum(s) * 1000 / s.len() as int) as i64)
    }
}

/// Adds up every sample magnitude in the buffer. The accumulator is wide
/// enough that no buffer a host can address overflows it.
pub fn sum_u8(data: &Vec<u8>) -> (sum: u128)
    ensures
        sum == seq_sum(data@),
{
    let mut sum: u128 = 0;
    let mut i: usize = 0;
    while i < data.len()
        invariant
            i <= data@.len(),
            0 <= sum <= 255 * i,
            sum == seq_sum(data@.take(i as int)),
        decreases data@.len() - i,
    {
        proof {
            assert(data@.take(i as int + 1).drop_last() =~= data@.take(i as int));
            assert(data@.take(i as int + 1).last() == data@[i as int]);
        }
        sum = sum + data[i] as u128;
        i = i + 1;
    }
    proof {
        assert(data@.take(data@.len() as int) =~= data@);
    }
    sum
}

/// Computes the arithmetic mean of the sample magnitudes, in milliunits
/// rounded down. An empty buffer yields zero rather than a division by its
/// length; every result is definite and within the magnitude range of one
/// sample.
pub fn avg_u8(data: &Vec<u8>) -> (r: Scalar)
    ensures
        r == spec_avg_u8(data@),
        r matches Scalar::Milli(v) && 0 <= v <= 255000,
{
    let len = data.len();
    if len == 0 {
        return Scalar::Milli(0);
    }
    let sum = sum_u8(data);
    proof {
        lemma_seq_sum_bounds(data@);
        lemma_div_pos_is_pos(seq_sum(data@) * 1000, len as int);
        lemma_multiply_divide_le(seq_sum(data@) * 1000, len as int, 255000);
    }
    let scaled: u128 = sum * 1000;
    let q: u128 = scaled / (len as u128);
    Scalar::Milli(q as i64)
}

/// Every heuristic is a pure mapping: each postcondition above ties the
/// result to a specification function of the call's arguments alone, so two
/// results obtained from identical inputs are identical. This covers even
/// the randomized speed once the drawn sample is counted among the inputs;
/// the host's draw itself is the one source of variation between calls.
pub proof fn lemma_repeat_call_agrees(
    legit: bool,
    randomize: bool,
    multiplier: Scalar,
    legit_min: Scalar,
    legit_max: Scalar,
    legit_base: Scalar,
    draw: u32,
    last_time: Scalar,
    current_time: Scalar,
    duration: Scalar,
    threshold: Scalar,
    avg_amp: Scalar,
    max_ad_duration: Scalar,
    amp_threshold: Scalar,
    current_volume: Scalar,
    steps: u32,
    samples: Seq<u8>,
    speed_a: Scalar,
    speed_b: Scalar,
    legit_speed_a: Scalar,
    legit_speed_b: Scalar,
    wrap_a: bool,
    wrap_b: bool,
    avg_a: Scalar,
    avg_b: Scalar,
    fade_a: Scalar,
    fade_b: Scalar,
    low_a: bool,
    low_b: bool,
)
    requires
        speed_a == spec_compute_speed(legit, multiplier),
        speed_b == spec_compute_speed(legit, multiplier),
        legit_speed_a == spec_compute_legit_speed(
            legit,
            randomize,
            multiplier,
            legit_min,
            legit_max,
            legit_base,
            draw,
        ),
        legit_speed_b == spec_compute_legit_speed(
            legit,
            randomize,
            multiplier,
            legit_min,
            legit_max,
            legit_base,
            draw,
        ),
        wrap_a == spec_is_ad_time_wrap(last_time, current_time, duration, threshold),
        wrap_b == spec_is_ad_time_wrap(last_time, current_time, duration, threshold),
        avg_a == spec_avg_u8(samples),
        avg_b == spec_avg_u8(samples),
        fade_a == spec_volume_fade_step(current_volume, steps),
        fade_b == spec_volume_fade_step(current_volume, steps),
        low_a == spec_evaluate_low_audio_ad(avg_amp, duration, max_ad_duration, amp_threshold),
        low_b == spec_evaluate_low_audio_ad(avg_amp, duration, max_ad_duration, amp_threshold),
    ensures
        speed_a == speed_b,
        legit_speed_a == legit_speed_b,
        wrap_a == wrap_b,
        avg_a == avg_b,
        fade_a == fade_b,
        low_a == low_b,
{
}

} // verus!
