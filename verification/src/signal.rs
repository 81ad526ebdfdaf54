//! The signal model: a pure map from mode and elapsed time to a normalized
//! output level, and the quantization step that turns a level into the
//! sink's 0–255 domain.
//!
//! The oscillating mode follows a sine wave mapped from its bipolar range
//! into [0, full scale]. The wave is evaluated in fixed point with
//! Bhaskara I's rational approximation of the sine, whose error stays below
//! two thousandths of full scale — under half of one step of the sink's
//! 8-bit quantization.

use vstd::arithmetic::div_mod::{
    lemma_div_pos_is_pos, lemma_hoist_over_denominator, lemma_mod_division_less_than_divisor,
    lemma_mod_multiples_vanish, lemma_multiply_divide_le,
};
use vstd::arithmetic::mul::lemma_mul_is_distributive_add;
use vstd::prelude::*;

use crate::types::{AppState, FULL_LEVEL, HALF_LEVEL};

verus! {

/// Phase steps per wave cycle: the phase is a cycle fraction in millionths.
pub const CYCLE_STEPS: u32 = 1_000_000;

/// Phase steps in half a cycle.
pub const HALF_CYCLE: u32 = 500_000;

/// Where in its cycle the wave stands after `elapsed_micros` at
/// `freq_millihz`: millihertz times microseconds gives nano-cycles, so the
/// phase in millionths of a cycle is their product over a thousand, reduced
/// modulo one cycle.
pub open spec fn phase_of(freq_millihz: int, elapsed_micros: int) -> int {
    ((freq_millihz * elapsed_micros) / 1000) % (CYCLE_STEPS as int)
}

/// The rising half of the wave: Bhaskara I's approximation
/// `16x(1-x) / (5 - 4x(1-x))` of `sin(pi x)`, scaled so that the phase `q`
/// runs over half a cycle and the result over [0, full scale].
pub open spec fn half_wave_of(q: int) -> int {
    let u = q * (HALF_CYCLE as int - q);
    16 * u * 1_000_000 / (1_250_000_000_000 - 4 * u)
}

/// One full wave cycle mapped into [0, full scale]: the midpoint plus half
/// the sine on the rising half, the midpoint minus half the sine on the
/// falling half.
pub open spec fn wave_level_of(p: int) -> int {
    if p < HALF_CYCLE as int {
        (FULL_LEVEL as int + half_wave_of(p)) / 2
    } else {
        (FULL_LEVEL as int - half_wave_of(p - HALF_CYCLE as int)) / 2
    }
}

/// What the signal model returns for a mode at a given elapsed time: the
/// stored level for `Constant`, the wave level at the current phase for
/// `Circular`. `Paused` produces no output and is never sampled.
pub open spec fn sample_of(state: AppState, elapsed_micros: int) -> int {
    match state {
        AppState::Paused => 0,
        AppState::Constant(level) => level as int,
        AppState::Circular(freq_millihz) => wave_level_of(
            phase_of(freq_millihz as int, elapsed_micros),
        ),
    }
}

/// The sink value for a level: the level's fraction of 255, truncated, and
/// clamped at the sink's ceiling for levels beyond full scale.
pub open spec fn quantize_of(level: int) -> int {
    let v = level * 255 / 1_000_000;
    if v > 255 {
        255
    } else {
        v
    }
}

/// The phase of the wave, computed exactly as `phase_of` says.
pub fn phase(freq_millihz: u32, elapsed_micros: u64) -> (p: u32)
    ensures
        p == phase_of(freq_millihz as int, elapsed_micros as int),
        p < CYCLE_STEPS,
{
    proof {
        assert((freq_millihz as int) * (elapsed_micros as int) <= 0xFFFF_FFFF * 0xFFFF_FFFF_FFFF_FFFF)
            by (nonlinear_arith)
            requires
                freq_millihz <= 0xFFFF_FFFFu32,
                elapsed_micros <= 0xFFFF_FFFF_FFFF_FFFFu64,
        ;
        lemma_mod_division_less_than_divisor(
            (freq_millihz as int) * (elapsed_micros as int) / 1000,
            CYCLE_STEPS as int,
        );
    }
    let product: u128 = (freq_millihz as u128) * (elapsed_micros as u128);
    ((product / 1000) % 1_000_000) as u32
}

/// The rising half of the wave, computed exactly as `half_wave_of` says.
pub fn half_wave(q: u32) -> (r: u32)
    requires
        q <= HALF_CYCLE,
    ensures
        r == half_wave_of(q as int),
        r <= FULL_LEVEL,
{
    proof {
        lemma_half_wave_in_range(q as int);
        assert(0 <= (q as int) * (500_000 - q as int) <= 62_500_000_000) by (nonlinear_arith)
            requires
                0 <= q as int <= 500_000,
        ;
    }
    let u: u64 = (q as u64) * ((HALF_CYCLE - q) as u64);
    let num: u64 = 16_000_000 * u;
    let den: u64 = 1_250_000_000_000 - 4 * u;
    proof {
        lemma_multiply_divide_le(num as int, den as int, FULL_LEVEL as int);
    }
    (num / den) as u32
}

/// The rising half of the wave stays within [0, full scale].
pub proof fn lemma_half_wave_in_range(q: int)
    requires
        0 <= q <= HALF_CYCLE as int,
    ensures
        0 <= half_wave_of(q) <= FULL_LEVEL as int,
{
    let u = q * (HALF_CYCLE as int - q);
    assert(0 <= q * (500_000 - q) <= 62_500_000_000) by (nonlinear_arith)
        requires
            0 <= q <= 500_000,
    ;
    assert(u == q * (500_000 - q));
    lemma_div_pos_is_pos(16 * u * 1_000_000, 1_250_000_000_000 - 4 * u);
    lemma_multiply_divide_le(16 * u * 1_000_000, 1_250_000_000_000 - 4 * u, FULL_LEVEL as int);
}

/// One full cycle of the wave stays within [0, full scale].
pub proof fn lemma_wave_level_in_range(p: int)
    requires
        0 <= p < CYCLE_STEPS as int,
    ensures
        0 <= wave_level_of(p) <= FULL_LEVEL as int,
{
    if p < HALF_CYCLE as int {
        lemma_half_wave_in_range(p);
    } else {
        lemma_half_wave_in_range(p - HALF_CYCLE as int);
    }
}

/// One full wave cycle, computed exactly as `wave_level_of` says.
pub fn wave_level(p: u32) -> (level: u32)
    requires
        p < CYCLE_STEPS,
    ensures
        level == wave_level_of(p as int),
        level <= FULL_LEVEL,
{
    if p < HALF_CYCLE {
        let h = half_wave(p);
        (FULL_LEVEL + h) / 2
    } else {
        let h = half_wave(p - HALF_CYCLE);
        (FULL_LEVEL - h) / 2
    }
}

/// Samples the signal model: the level a non-paused mode produces after
/// `elapsed_micros` microseconds, exactly as `sample_of` says. The paused
/// mode is never sampled — the loop leaves the sink untouched there.
pub fn sample(state: AppState, elapsed_micros: u64) -> (level: u32)
    requires
        !(state is Paused),
    ensures
        level == sample_of(state, elapsed_micros as int),
        state is Circular ==> level <= FULL_LEVEL,
{
    match state {
        AppState::Paused => 0,
        AppState::Constant(level) => level,
        AppState::Circular(freq_millihz) => wave_level(phase(freq_millihz, elapsed_micros)),
    }
}

/// Quantizes a level to the sink's 0–255 domain, exactly as `quantize_of`
/// says: truncating division, saturating at the ceiling.
pub fn quantize(level: u32) -> (v: u8)
    ensures
        v == quantize_of(level as int),
{
    let wide: u64 = (level as u64) * 255 / 1_000_000;
    if wide > 255 {
        255
    } else {
        wide as u8
    }
}

/// A constant mode reproduces its level unchanged, whenever it is sampled.
pub proof fn lemma_constant_sample_is_level(level: u32, elapsed_micros: u64)
    ensures
        sample_of(AppState::Constant(level), elapsed_micros as int) == level,
{
}

/// An oscillating mode's sample stays within [0, full scale], for every
/// frequency and every elapsed time.
pub proof fn lemma_oscillating_sample_in_range(freq_millihz: u32, elapsed_micros: u64)
    ensures
        0 <= sample_of(AppState::Circular(freq_millihz), elapsed_micros as int)
            <= FULL_LEVEL as int,
{
    lemma_mod_division_less_than_divisor(
        (freq_millihz as int) * (elapsed_micros as int) / 1000,
        CYCLE_STEPS as int,
    );
    lemma_wave_level_in_range(phase_of(freq_millihz as int, elapsed_micros as int));
}

/// At elapsed time zero the wave stands at phase zero, where the sine is
/// zero, so an oscillating mode starts exactly at the midpoint level.
pub proof fn lemma_oscillating_starts_at_midpoint(freq_millihz: u32)
    ensures
        sample_of(AppState::Circular(freq_millihz), 0) == HALF_LEVEL as int,
{
    assert(phase_of(freq_millihz as int, 0) == 0);
    assert(half_wave_of(0) == 0);
}

/// The oscillating sample is periodic: whenever a whole period — a span of
/// microseconds whose product with the frequency in millihertz is exactly
/// one cycle's nano-cycles — is added to the elapsed time, the sample
/// repeats exactly.
pub proof fn lemma_oscillating_sample_periodic(
    freq_millihz: u32,
    elapsed_micros: u64,
    period_micros: u64,
)
    requires
        (freq_millihz as int) * (period_micros as int) == 1_000_000_000,
    ensures
        sample_of(AppState::Circular(freq_millihz), elapsed_micros + period_micros)
            == sample_of(AppState::Circular(freq_millihz), elapsed_micros as int),
{
    let f = freq_millihz as int;
    let t = elapsed_micros as int;
    let p = period_micros as int;
    lemma_mul_is_distributive_add(f, t, p);
    assert(f * (t + p) == f * t + 1_000_000_000);
    lemma_hoist_over_denominator(f * t, 1_000_000, 1000nat);
    assert((f * t + 1_000_000_000) / 1000 == (f * t) / 1000 + 1_000_000);
    lemma_mod_multiples_vanish(1, (f * t) / 1000, 1_000_000);
    assert(((f * t) / 1000 + 1_000_000) % 1_000_000 == ((f * t) / 1000) % 1_000_000);
}

} // verus!
