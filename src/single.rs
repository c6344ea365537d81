use vstd::prelude::*;

verus! {

/// `2^n`.
pub open spec fn two_to(n: nat) -> nat
    decreases n,
{
    if n == 0 {
        1
    } else {
        2 * two_to((n - 1) as nat)
    }
}

/// `2^40`: values are scaled by it so that fractions of a unit stay integers.
pub open spec fn scale() -> nat {
    1099511627776
}

/// `num / den` scaled by `2^40 / 2^s` has a 24-bit integer part: `s` sets the binary
/// exponent of its single-precision value.
pub open spec fn in_range(num: nat, den: nat, s: nat) -> bool {
    8388608 * (den * two_to(s)) <= num * scale() < 16777216 * (den * two_to(s))
}

/// `n / d` rounded to the nearest integer, ties to even.
pub open spec fn round_half_even(n: nat, d: nat) -> nat {
    let f = n / d;
    let r = n % d;
    if 2 * r > d || (2 * r == d && f % 2 == 1) {
        f + 1
    } else {
        f
    }
}

/// The binary exponent, offset by 40, of `num / den` in single precision.
pub open spec fn single_shift(num: nat, den: nat) -> nat {
    choose|s: nat| in_range(num, den, s)
}

/// The 24-bit significand of `num / den` rounded to single precision: the rounded value
/// is `single_mant * 2^single_shift / 2^40`.
pub open spec fn single_mant(num: nat, den: nat) -> nat {
    round_half_even(num * scale(), den * two_to(single_shift(num, den)))
}

/// `num / den` rounded to single precision, times `2^40`.
pub open spec fn single_scaled(num: nat, den: nat) -> nat {
    single_mant(num, den) * two_to(single_shift(num, den))
}

pub proof fn lemma_two_to_grows(a: nat, b: nat)
    requires
        a < b,
    ensures
        2 * two_to(a) <= two_to(b),
        two_to(a) >= 1,
    decreases b,
{
    lemma_two_to_pos(a);
    if b - 1 > a {
        lemma_two_to_grows(a, (b - 1) as nat);
    }
}

pub proof fn lemma_two_to_pos(a: nat)
    ensures
        two_to(a) >= 1,
    decreases a,
{
    if a > 0 {
        lemma_two_to_pos((a - 1) as nat);
    }
}

/// At most one exponent places a value in range.
pub proof fn lemma_in_range_unique(num: nat, den: nat, s1: nat, s2: nat)
    requires
        den > 0,
        in_range(num, den, s1),
        in_range(num, den, s2),
    ensures
        s1 == s2,
{
    if s1 < s2 {
        lemma_two_to_grows(s1, s2);
        assert(16777216 * (den * two_to(s1)) <= 8388608 * (den * two_to(s2))) by (nonlinear_arith)
            requires
                2 * two_to(s1) <= two_to(s2),
                den > 0,
        ;
    } else if s2 < s1 {
        lemma_two_to_grows(s2, s1);
        assert(16777216 * (den * two_to(s2)) <= 8388608 * (den * two_to(s1))) by (nonlinear_arith)
            requires
                2 * two_to(s2) <= two_to(s1),
                den > 0,
        ;
    }
}

/// Rounds `num / den` to single precision; returns its significand `m` and `p = 2^s`
/// with the value `m * p / 2^40`.
pub fn round_single(num: u128, den: u128) -> (r: (u128, u128))
    requires
        den > 0,
        num < 1208925819614629174706176,
        8388608 * den <= num * 1099511627776,
    ensures
        r.0 == single_mant(num as nat, den as nat),
        r.1 == two_to(single_shift(num as nat, den as nat)),
        in_range(num as nat, den as nat, single_shift(num as nat, den as nat)),
        8388608 <= r.0 <= 16777216,
        r.1 >= 1,
{
    let n: u128 = num * 1099511627776;
    let mut dd: u128 = den;
    let mut p: u128 = 1;
    let ghost mut s: nat = 0;
    while n >= 16777216 * dd
        invariant
            n == num * 1099511627776,
            n < 1329227995784915872903807060280344576,
            p <= dd,
            p == two_to(s),
            dd == den * p,
            p >= 1,
            8388608 * dd <= n,
        decreases n - dd,
    {
        proof {
            assert(two_to(s + 1) == 2 * two_to(s));
            assert(den * (2 * p) == 2 * (den * p)) by (nonlinear_arith);
        }
        dd = dd * 2;
        p = p * 2;
        proof {
            s = s + 1;
        }
    }
    proof {
        assert(dd == den * two_to(s));
        assert(in_range(num as nat, den as nat, s));
        lemma_in_range_unique(
            num as nat,
            den as nat,
            s,
            single_shift(num as nat, den as nat),
        );
    }
    let f = n / dd;
    let rem = n % dd;
    assert(8388608 <= f < 16777216) by (nonlinear_arith)
        requires
            8388608 * dd <= n,
            n < 16777216 * dd,
            f == n / dd,
            dd > 0,
    ;
    let m = if 2 * rem > dd || (2 * rem == dd && f % 2 == 1) {
        f + 1
    } else {
        f
    };
    (m, p)
}

} // verus!
