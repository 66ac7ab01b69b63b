use vstd::prelude::*;
use crate::envelope::AMP_ONE;

verus! {

/// Phase scale: one full waveform cycle. A phase accumulator is always a
/// value in `[0, PHASE_ONE)`, the fixed-point fraction of the cycle.
pub const PHASE_ONE: u64 = 0x1_0000_0000;

/// Waveform amplitude scale: the oscillator output ranges over
/// `[-WAVE_ONE, WAVE_ONE]`, standing for the real interval [-1, 1].
pub const WAVE_ONE: i32 = 1_000_000;

/// The highest frequency the parameter surface accepts: 10 kHz,
/// in millihertz.
pub const FREQ_MAX_MHZ: u32 = 10_000_000;

/// The per-sample phase increment for a tone of `freq_mhz` millihertz at
/// `rate` samples per second: the fraction `freq / rate` of a full cycle,
/// in `PHASE_ONE` units.
pub open spec fn spec_phase_step(freq_mhz: u32, rate: u32) -> int
    recommends
        1 <= rate,
{
    (freq_mhz * PHASE_ONE) / (rate * 1000)
}

/// The per-sample phase increment for `freq_mhz` millihertz at `rate` Hz.
pub fn phase_step(freq_mhz: u32, rate: u32) -> (delta: u64)
    requires
        1 <= rate,
        freq_mhz <= FREQ_MAX_MHZ,
    ensures
        delta == spec_phase_step(freq_mhz, rate),
        delta <= u64::MAX - PHASE_ONE,
{
    let num: u64 = (freq_mhz as u64) * PHASE_ONE;
    let den: u64 = (rate as u64) * 1000;
    proof {
        vstd::arithmetic::div_mod::lemma_div_nonincreasing(num as int, den as int);
    }
    num / den
}

/// One step of the accumulator: advance by `delta` and wrap to `[0, PHASE_ONE)`.
pub fn next_phase(phase: u64, delta: u64) -> (p: u64)
    requires
        phase < PHASE_ONE,
        delta <= u64::MAX - PHASE_ONE,
    ensures
        p == (phase + delta) % (PHASE_ONE as int),
        p < PHASE_ONE,
{
    proof {
        vstd::arithmetic::div_mod::lemma_mod_division_less_than_divisor(
            phase + delta,
            PHASE_ONE as int,
        );
    }
    (phase + delta) % PHASE_ONE
}

/// The phase reached after `n` accumulator steps of `delta` from phase 0.
pub open spec fn phase_after(n: nat, delta: u64) -> int
    decreases n,
{
    if n == 0 {
        0
    } else {
        (phase_after((n - 1) as nat, delta) + delta) % (PHASE_ONE as int)
    }
}

/// Phase continuity: after `n` steps from phase 0 the accumulator holds
/// exactly the fraction `n * delta` of a cycle, wrapped into one cycle —
/// repeated wrapping never drifts from the closed form.
pub proof fn lemma_phase_after_closed_form(n: nat, delta: u64)
    ensures
        phase_after(n, delta) == (n * delta) % (PHASE_ONE as int),
    decreases n,
{
    let m = PHASE_ONE as int;
    if n == 0 {
        vstd::arithmetic::div_mod::lemma_small_mod(0, PHASE_ONE as nat);
    } else {
        lemma_phase_after_closed_form((n - 1) as nat, delta);
        let prev = (n - 1) * delta;
        vstd::arithmetic::div_mod::lemma_add_mod_noop_right(delta as int, prev, m);
        assert((n - 1) * delta + delta == n * delta) by (nonlinear_arith);
    }
}

/// Half of the waveform: a parabolic arch over `q` in `[0, 32768]`, zero at
/// both ends and peaking at `WAVE_ONE` in the middle.
pub open spec fn half_wave(q: int) -> int
    recommends
        0 <= q <= 32768,
{
    q * (32768 - q) * (WAVE_ONE as int) / 268435456
}

/// The oscillator output at a given phase: a parabolic approximation of
/// one sine cycle, positive on the first half of the cycle and the mirror
/// image, negated, on the second half.
pub open spec fn spec_wave(phase: int) -> int
    recommends
        0 <= phase < PHASE_ONE,
{
    let q = phase / 65536;
    if q < 32768 {
        half_wave(q)
    } else {
        -half_wave(q - 32768)
    }
}

/// The parabolic arch stays within `[0, WAVE_ONE]`.
pub proof fn lemma_half_wave_bounds(q: int)
    requires
        0 <= q <= 32768,
    ensures
        0 <= half_wave(q) <= WAVE_ONE,
{
    assert(0 <= q * (32768 - q) <= 268435456) by (nonlinear_arith)
        requires 0 <= q <= 32768;
    vstd::arithmetic::mul::lemma_mul_inequality(q * (32768 - q), 268435456, WAVE_ONE as int);
    vstd::arithmetic::mul::lemma_mul_nonnegative(q * (32768 - q), WAVE_ONE as int);
    vstd::arithmetic::div_mod::lemma_div_pos_is_pos(q * (32768 - q) * (WAVE_ONE as int), 268435456);
    vstd::arithmetic::div_mod::lemma_multiply_divide_le(
        q * (32768 - q) * (WAVE_ONE as int),
        268435456,
        WAVE_ONE as int,
    );
}

/// The waveform stays within `[-WAVE_ONE, WAVE_ONE]` over the whole cycle.
pub proof fn lemma_wave_bounds(phase: int)
    requires
        0 <= phase < PHASE_ONE,
    ensures
        -WAVE_ONE <= spec_wave(phase) <= WAVE_ONE,
{
    let q = phase / 65536;
    if q < 32768 {
        lemma_half_wave_bounds(q);
    } else {
        assert(q < 65536) by {
            vstd::arithmetic::div_mod::lemma_multiply_divide_lt(phase, 65536, 65536);
        }
        lemma_half_wave_bounds(q - 32768);
    }
}

/// The waveform is zero at phase 0 and at the half-cycle point, so a voice
/// triggered at phase 0 starts from a zero sample, without a click.
pub proof fn lemma_wave_zero_crossings()
    ensures
        spec_wave(0) == 0,
        spec_wave((PHASE_ONE / 2) as int) == 0,
{
    vstd::arithmetic::div_mod::lemma_div_of0(65536);
    vstd::arithmetic::div_mod::lemma_div_of0(268435456);
    vstd::arithmetic::div_mod::lemma_div_multiples_vanish(32768, 65536);
    assert((0x80000000 as int) == 32768 * 65536);
}

/// The oscillator output at phase `phase`.
pub fn wave_at(phase: u64) -> (w: i32)
    requires
        phase < PHASE_ONE,
    ensures
        w == spec_wave(phase as int),
        -WAVE_ONE <= w <= WAVE_ONE,
{
    let q: u64 = phase / 65536;
    proof {
        vstd::arithmetic::div_mod::lemma_multiply_divide_lt(phase as int, 65536, 65536);
        lemma_wave_bounds(phase as int);
    }
    if q < 32768 {
        proof {
            assert(q * (32768 - q) <= 268435456) by (nonlinear_arith)
                requires 0 <= q < 32768;
            lemma_half_wave_bounds(q as int);
        }
        let num: u64 = q * (32768 - q) * (WAVE_ONE as u64);
        (num / 268435456) as i32
    } else {
        let r: u64 = q - 32768;
        proof {
            assert(r * (32768 - r) <= 268435456) by (nonlinear_arith)
                requires 0 <= r < 32768;
            lemma_half_wave_bounds(r as int);
        }
        let num: u64 = r * (32768 - r) * (WAVE_ONE as u64);
        -((num / 268435456) as i32)
    }
}

/// Scale a waveform sample by an envelope level: the fixed-point product
/// `w * amp / AMP_ONE`, computed on the magnitude so that the scaled sample
/// keeps the sign of `w`.
pub open spec fn spec_scaled(w: int, amp: int) -> int {
    if w >= 0 {
        w * amp / (AMP_ONE as int)
    } else {
        -((-w) * amp / (AMP_ONE as int))
    }
}

/// Scaling any waveform sample by amplitude 0 yields exact silence.
pub proof fn lemma_scaled_zero(w: int)
    ensures
        spec_scaled(w, 0) == 0,
{
    vstd::arithmetic::mul::lemma_mul_basics(w);
    vstd::arithmetic::mul::lemma_mul_basics(-w);
    vstd::arithmetic::div_mod::lemma_div_of0(AMP_ONE as int);
}

/// The scaled sample is no larger in magnitude than the waveform bound.
pub proof fn lemma_scaled_bounds(w: int, amp: int)
    requires
        -WAVE_ONE <= w <= WAVE_ONE,
        0 <= amp <= AMP_ONE,
    ensures
        -WAVE_ONE <= spec_scaled(w, amp) <= WAVE_ONE,
{
    let mag = if w >= 0 { w } else { -w };
    assert(mag * amp <= (AMP_ONE as int) * (WAVE_ONE as int)) by (nonlinear_arith)
        requires 0 <= mag <= WAVE_ONE && 0 <= amp <= AMP_ONE && AMP_ONE == WAVE_ONE;
    assert(0 <= mag * amp) by (nonlinear_arith)
        requires 0 <= mag && 0 <= amp;
    vstd::arithmetic::div_mod::lemma_div_pos_is_pos(mag * amp, AMP_ONE as int);
    vstd::arithmetic::div_mod::lemma_multiply_divide_le(mag * amp, AMP_ONE as int, WAVE_ONE as int);
}

/// Multiply a waveform sample by an envelope level, in fixed point.
pub fn scaled_sample(w: i32, amp: u32) -> (s: i32)
    requires
        -WAVE_ONE <= w <= WAVE_ONE,
        amp <= AMP_ONE,
    ensures
        s == spec_scaled(w as int, amp as int),
        -WAVE_ONE <= s <= WAVE_ONE,
{
    proof {
        lemma_scaled_bounds(w as int, amp as int);
    }
    if w >= 0 {
        let num: u64 = (w as u64) * (amp as u64);
        proof {
            assert((w as int) * (amp as int) <= (WAVE_ONE as int) * (AMP_ONE as int))
                by (nonlinear_arith)
                requires 0 <= w <= WAVE_ONE && 0 <= amp <= AMP_ONE;
        }
        (num / (AMP_ONE as u64)) as i32
    } else {
        let mag: u64 = ((-w) as u64) * (amp as u64);
        proof {
            assert((-w as int) * (amp as int) <= (WAVE_ONE as int) * (AMP_ONE as int))
                by (nonlinear_arith)
                requires 0 <= -w <= WAVE_ONE && 0 <= amp <= AMP_ONE;
        }
        -((mag / (AMP_ONE as u64)) as i32)
    }
}

} // verus!
