use vstd::prelude::*;

verus! {

/// Amplitude scale: a level of `AMP_ONE` stands for an amplitude
/// multiplier of 1.0; all levels are fixed-point fractions of it.
pub const AMP_ONE: u32 = 1_000_000;

/// Length of the linear attack ramp, in nanoseconds (0.2 seconds).
pub const ATTACK_NS: u64 = 200_000_000;

/// Length of the linear decay ramp, in nanoseconds (10 seconds).
pub const DECAY_NS: u64 = 10_000_000_000;

/// One second, in nanoseconds. Sample rates below 1 Hz are never used,
/// so this is also the largest per-sample time step the engine takes.
pub const NANOS_PER_SEC: u64 = 1_000_000_000;

/// The envelope level of a voice that has sounded for `elapsed`
/// nanoseconds: a linear ramp from 0 up to `AMP_ONE` over the attack,
/// then a linear ramp back down to 0 over the decay, and 0 from the
/// end of the decay on.
pub open spec fn env_level(elapsed: int) -> int {
    if elapsed < ATTACK_NS as int {
        elapsed * (AMP_ONE as int) / (ATTACK_NS as int)
    } else if elapsed < ATTACK_NS + DECAY_NS {
        AMP_ONE - (elapsed - ATTACK_NS as int) * (AMP_ONE as int) / (DECAY_NS as int)
    } else {
        0
    }
}

/// `x * k / d` stays below `k` whenever `x < d`.
proof fn lemma_scale_below(x: int, k: int, d: int)
    requires
        0 <= x < d,
        0 < k,
    ensures
        0 <= x * k / d < k,
{
    vstd::arithmetic::div_mod::lemma_div_pos_is_pos(x * k, d);
    vstd::arithmetic::mul::lemma_mul_nonnegative(x, k);
    assert(x * k < d * k) by (nonlinear_arith)
        requires 0 <= x < d && 0 < k;
    vstd::arithmetic::div_mod::lemma_multiply_divide_lt(x * k, d, k);
}

/// The envelope level is always a valid amplitude: between 0 and `AMP_ONE`.
pub proof fn lemma_env_level_bounds(elapsed: int)
    requires
        0 <= elapsed,
    ensures
        0 <= env_level(elapsed) <= AMP_ONE,
{
    if elapsed < ATTACK_NS as int {
        lemma_scale_below(elapsed, AMP_ONE as int, ATTACK_NS as int);
    } else if elapsed < ATTACK_NS + DECAY_NS {
        lemma_scale_below(elapsed - ATTACK_NS as int, AMP_ONE as int, DECAY_NS as int);
    }
}

/// The envelope starts from silence, reaches full amplitude exactly at the
/// end of the attack, and is back to exact silence at the end of the decay.
pub proof fn lemma_env_level_endpoints()
    ensures
        env_level(0) == 0,
        env_level(ATTACK_NS as int) == AMP_ONE,
        env_level((ATTACK_NS + DECAY_NS) as int) == 0,
{
    vstd::arithmetic::div_mod::lemma_div_of0(ATTACK_NS as int);
    vstd::arithmetic::div_mod::lemma_div_of0(DECAY_NS as int);
}

/// The envelope never falls during the attack: between any two elapsed
/// times within the attack ramp, the level at the later time is at least
/// the level at the earlier one.
pub proof fn lemma_env_attack_monotone(e1: int, e2: int)
    requires
        0 <= e1 <= e2 <= ATTACK_NS,
    ensures
        env_level(e1) <= env_level(e2),
{
    if e2 < ATTACK_NS as int {
        vstd::arithmetic::mul::lemma_mul_inequality(e1, e2, AMP_ONE as int);
        vstd::arithmetic::div_mod::lemma_div_is_ordered(
            e1 * (AMP_ONE as int),
            e2 * (AMP_ONE as int),
            ATTACK_NS as int,
        );
    } else {
        lemma_env_level_bounds(e1);
        lemma_env_level_endpoints();
    }
}

/// The attack ramp is strictly rising at the fixed-point resolution: the
/// envelope gains one level unit every 200 ns, so any two elapsed times in
/// the attack at least 200 ns apart — one sample apart at any rate up to
/// 5 MHz — have strictly ordered levels.
pub proof fn lemma_env_attack_strict(e1: int, e2: int)
    requires
        0 <= e1,
        e1 + 200 <= e2 <= ATTACK_NS,
    ensures
        env_level(e1) < env_level(e2),
{
    if e2 < ATTACK_NS as int {
        assert((e1 + 200) * (AMP_ONE as int) == e1 * (AMP_ONE as int) + ATTACK_NS);
        vstd::arithmetic::mul::lemma_mul_inequality(e1 + 200, e2, AMP_ONE as int);
        vstd::arithmetic::div_mod::lemma_div_plus_one(e1 * (AMP_ONE as int), ATTACK_NS as int);
        vstd::arithmetic::div_mod::lemma_div_is_ordered(
            e1 * (AMP_ONE as int) + ATTACK_NS as int,
            e2 * (AMP_ONE as int),
            ATTACK_NS as int,
        );
    } else {
        lemma_scale_below(e1, AMP_ONE as int, ATTACK_NS as int);
        lemma_env_level_endpoints();
    }
}

/// The decay ramp is strictly falling at the fixed-point resolution: the
/// envelope loses one level unit every 10 microseconds, so any two elapsed
/// times in the decay at least that far apart — one sample apart at any
/// rate up to 100 kHz — have strictly ordered levels.
pub proof fn lemma_env_decay_strict(e1: int, e2: int)
    requires
        ATTACK_NS <= e1,
        e1 + 10000 <= e2 < ATTACK_NS + DECAY_NS,
    ensures
        env_level(e1) > env_level(e2),
{
    let a = ATTACK_NS as int;
    assert((e1 - a + 10000) * (AMP_ONE as int) == (e1 - a) * (AMP_ONE as int) + DECAY_NS);
    vstd::arithmetic::mul::lemma_mul_inequality(e1 - a + 10000, e2 - a, AMP_ONE as int);
    vstd::arithmetic::div_mod::lemma_div_plus_one((e1 - a) * (AMP_ONE as int), DECAY_NS as int);
    vstd::arithmetic::div_mod::lemma_div_is_ordered(
        (e1 - a) * (AMP_ONE as int) + DECAY_NS as int,
        (e2 - a) * (AMP_ONE as int),
        DECAY_NS as int,
    );
}

/// The envelope never rises from the end of the attack on: between any two
/// elapsed times past the attack ramp, the level at the later time is at
/// most the level at the earlier one.
pub proof fn lemma_env_decay_monotone(e1: int, e2: int)
    requires
        ATTACK_NS <= e1 <= e2,
    ensures
        env_level(e1) >= env_level(e2),
{
    if e2 < ATTACK_NS + DECAY_NS {
        vstd::arithmetic::mul::lemma_mul_inequality(
            e1 - ATTACK_NS as int,
            e2 - ATTACK_NS as int,
            AMP_ONE as int,
        );
        vstd::arithmetic::div_mod::lemma_div_is_ordered(
            (e1 - ATTACK_NS as int) * (AMP_ONE as int),
            (e2 - ATTACK_NS as int) * (AMP_ONE as int),
            DECAY_NS as int,
        );
    } else {
        lemma_env_level_bounds(e1);
    }
}

/// The envelope level for `elapsed` nanoseconds into a note.
pub fn env_level_at(elapsed: u64) -> (amp: u32)
    ensures
        amp == env_level(elapsed as int),
        amp <= AMP_ONE,
{
    proof {
        lemma_env_level_bounds(elapsed as int);
    }
    if elapsed < ATTACK_NS {
        ((elapsed * (AMP_ONE as u64)) / ATTACK_NS) as u32
    } else if elapsed < ATTACK_NS + DECAY_NS {
        ((AMP_ONE as u64) - ((elapsed - ATTACK_NS) * (AMP_ONE as u64)) / DECAY_NS) as u32
    } else {
        0
    }
}

} // verus!
