use vstd::prelude::*;
use vstd::string::StringExecFns;

verus! {

/// The decimal digit character for `d`.
pub open spec fn spec_digit(d: int) -> char
    recommends
        0 <= d < 10,
{
    if d == 0 {
        '0'
    } else if d == 1 {
        '1'
    } else if d == 2 {
        '2'
    } else if d == 3 {
        '3'
    } else if d == 4 {
        '4'
    } else if d == 5 {
        '5'
    } else if d == 6 {
        '6'
    } else if d == 7 {
        '7'
    } else if d == 8 {
        '8'
    } else {
        '9'
    }
}

/// The decimal notation of `n`, most significant digit first, with no
/// leading zeros (a single `'0'` for zero itself).
pub open spec fn spec_decimal(n: int) -> Seq<char>
    recommends
        0 <= n,
    decreases n,
{
    if n < 10 {
        seq![spec_digit(n)]
    } else {
        spec_decimal(n / 10).push(spec_digit(n % 10))
    }
}

/// The one-character string for a single decimal digit.
fn digit_str(d: u32) -> (r: &'static str)
    requires
        d < 10,
    ensures
        r@ == seq![spec_digit(d as int)],
{
    proof {
        reveal_strlit("0");
        reveal_strlit("1");
        reveal_strlit("2");
        reveal_strlit("3");
        reveal_strlit("4");
        reveal_strlit("5");
        reveal_strlit("6");
        reveal_strlit("7");
        reveal_strlit("8");
        reveal_strlit("9");
    }
    let r = if d == 0 {
        "0"
    } else if d == 1 {
        "1"
    } else if d == 2 {
        "2"
    } else if d == 3 {
        "3"
    } else if d == 4 {
        "4"
    } else if d == 5 {
        "5"
    } else if d == 6 {
        "6"
    } else if d == 7 {
        "7"
    } else if d == 8 {
        "8"
    } else {
        "9"
    };
    proof {
        assert(r@ =~= seq![spec_digit(d as int)]);
    }
    r
}

/// Render `n` in decimal notation.
pub fn decimal_string(n: u32) -> (s: String)
    ensures
        s@ == spec_decimal(n as int),
    decreases n,
{
    if n < 10 {
        digit_str(n).to_owned()
    } else {
        let mut s = decimal_string(n / 10);
        s.append(digit_str(n % 10));
        proof {
            assert(s@ =~= spec_decimal(n as int));
        }
        s
    }
}

/// The `k`-th power of ten.
pub open spec fn pow10(k: nat) -> int
    decreases k,
{
    if k == 0 {
        1
    } else {
        10 * pow10((k - 1) as nat)
    }
}

/// Powers of ten are at least 1.
pub proof fn lemma_pow10_pos(k: nat)
    ensures
        pow10(k) >= 1,
    decreases k,
{
    if k > 0 {
        lemma_pow10_pos((k - 1) as nat);
    }
}

/// The fractional digits of `rem / 10^k`, written right after the decimal
/// point: `k` places, with the trailing zeros left off.
pub open spec fn spec_frac(rem: int, k: nat) -> Seq<char>
    recommends
        1 <= k,
        0 < rem < pow10(k),
    decreases k,
{
    if k <= 1 {
        seq![spec_digit(rem)]
    } else {
        let p = pow10((k - 1) as nat);
        if rem % p == 0 {
            seq![spec_digit(rem / p)]
        } else {
            seq![spec_digit(rem / p)] + spec_frac(rem % p, (k - 1) as nat)
        }
    }
}

/// The decimal notation of the fraction `value / 10^k`: the whole part,
/// and — only when the value does not divide evenly — a decimal point and
/// the fractional digits with their trailing zeros left off.
pub open spec fn spec_scaled_decimal(value: int, k: nat) -> Seq<char> {
    let scale = pow10(k);
    if value % scale == 0 {
        spec_decimal(value / scale)
    } else {
        spec_decimal(value / scale) + seq!['.'] + spec_frac(value % scale, k)
    }
}

/// The `k`-th power of ten, up to the largest this module renders with.
fn pow10_at(k: u32) -> (p: u32)
    requires
        k <= 6,
    ensures
        p == pow10(k as nat),
{
    proof {
        assert(pow10(0) == 1);
        assert(pow10(1) == 10);
        assert(pow10(2) == 100);
        assert(pow10(3) == 1000);
        assert(pow10(4) == 10000);
        assert(pow10(5) == 100000);
        assert(pow10(6) == 1000000);
    }
    if k == 0 {
        1
    } else if k == 1 {
        10
    } else if k == 2 {
        100
    } else if k == 3 {
        1000
    } else if k == 4 {
        10000
    } else if k == 5 {
        100000
    } else {
        1000000
    }
}

/// The fractional digits of `rem / 10^k`, trailing zeros left off.
fn frac_string(rem: u32, k: u32) -> (s: String)
    requires
        1 <= k <= 6,
        0 < rem < pow10(k as nat),
    ensures
        s@ == spec_frac(rem as int, k as nat),
    decreases k,
{
    if k == 1 {
        digit_str(rem).to_owned()
    } else {
        let p = pow10_at(k - 1);
        proof {
            lemma_pow10_pos((k - 1) as nat);
            vstd::arithmetic::div_mod::lemma_multiply_divide_lt(rem as int, p as int, 10);
            vstd::arithmetic::div_mod::lemma_mod_division_less_than_divisor(rem as int, p as int);
        }
        let d = rem / p;
        let r2 = rem % p;
        let mut s = digit_str(d).to_owned();
        if r2 != 0 {
            let f = frac_string(r2, k - 1);
            s.append(f.as_str());
        }
        proof {
            assert(s@ =~= spec_frac(rem as int, k as nat));
        }
        s
    }
}

/// Render `value / 10^k` in decimal notation: the whole part, then a
/// decimal point and the fraction's digits only where the fraction is
/// not zero.
pub fn scaled_decimal(value: u32, k: u32) -> (s: String)
    requires
        k <= 6,
    ensures
        s@ == spec_scaled_decimal(value as int, k as nat),
{
    let scale = pow10_at(k);
    proof {
        lemma_pow10_pos(k as nat);
        vstd::arithmetic::div_mod::lemma_mod_division_less_than_divisor(
            value as int,
            scale as int,
        );
        vstd::arithmetic::mul::lemma_mul_basics(value as int);
        vstd::arithmetic::div_mod::lemma_mod_multiples_basic(value as int, 1);
    }
    let whole = value / scale;
    let rem = value % scale;
    let mut s = decimal_string(whole);
    if rem != 0 {
        proof {
            reveal_strlit(".");
        }
        s.append(".");
        let f = frac_string(rem, k);
        s.append(f.as_str());
        proof {
            assert(s@ =~= spec_scaled_decimal(value as int, k as nat));
        }
    }
    s
}

} // verus!
