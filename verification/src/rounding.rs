use vstd::prelude::*;

verus! {

/// The spacing of single-precision floats around the magnitude `a` (for `a` up to 2^31): one
/// below 2^24, doubling with each power of two above it.
pub open spec fn f32_spacing(a: int) -> int {
    if a < 0x100_0000 {
        1
    } else if a < 0x200_0000 {
        2
    } else if a < 0x400_0000 {
        4
    } else if a < 0x800_0000 {
        8
    } else if a < 0x1000_0000 {
        16
    } else if a < 0x2000_0000 {
        32
    } else if a < 0x4000_0000 {
        64
    } else if a < 0x8000_0000 {
        128
    } else {
        256
    }
}

/// `a` rounded to the nearest multiple of `u`, a tie going to the even multiple.
pub open spec fn round_to_multiple(a: int, u: int) -> int {
    let q = a / u;
    let r = a % u;
    if 2 * r > u || (2 * r == u && q % 2 == 1) {
        (q + 1) * u
    } else {
        q * u
    }
}

/// The value that converting the integer `v` to a single-precision float gives: the nearest
/// float, a tie going to the one with the even last digit.
pub open spec fn f32_value(v: int) -> int {
    if v >= 0 {
        round_to_multiple(v, f32_spacing(v))
    } else {
        -round_to_multiple(-v, f32_spacing(-v))
    }
}

/// What converting `v` to a single-precision float gives.
pub fn f32_value_of(v: i32) -> (r: i64)
    ensures
        r == f32_value(v as int),
        -0x8000_0000 <= r <= 0x8000_0000,
        v - 128 <= r <= v + 128,
        v >= 0 ==> r >= 0,
        -0x100_0000 < v < 0x100_0000 ==> r == v,
{
    let a: i64 = if v >= 0 { v as i64 } else { -(v as i64) };
    let u: i64 = if a < 0x100_0000 {
        1
    } else if a < 0x200_0000 {
        2
    } else if a < 0x400_0000 {
        4
    } else if a < 0x800_0000 {
        8
    } else if a < 0x1000_0000 {
        16
    } else if a < 0x2000_0000 {
        32
    } else if a < 0x4000_0000 {
        64
    } else if a < 0x8000_0000 {
        128
    } else {
        256
    };
    assert(u == f32_spacing(a as int));
    let q = a / u;
    let rem = a % u;
    proof {
        vstd::arithmetic::div_mod::lemma_fundamental_div_mod(a as int, u as int);
    }
    assert(0 <= rem < u);
    assert(a == u * q + rem);
    assert(0 <= q);
    assert(0 <= q * u <= a) by (nonlinear_arith)
        requires
            a == u * q + rem,
            0 <= rem,
            0 < u,
            0 <= q,
            0 <= a,
    ;
    let m: i64 = if 2 * rem > u || (2 * rem == u && q % 2 == 1) {
        q * u + u
    } else {
        q * u
    };
    assert(m == round_to_multiple(a as int, u as int)) by (nonlinear_arith)
        requires
            q == a / u,
            rem == a % u,
            m == (if 2 * rem > u || (2 * rem == u && q % 2 == 1) { q * u + u } else { q * u }),
    ;
    assert(a - 128 <= m <= a + 128);
    if v >= 0 {
        m
    } else {
        -m
    }
}

/// `2` to the power `k`.
pub open spec fn two_to(k: nat) -> int
    decreases k,
{
    if k == 0 {
        1
    } else {
        2 * two_to((k - 1) as nat)
    }
}

/// The exponent step of `p / q` (a value counted in units of 2^-60): the largest `k` up to
/// `k_max` for which `p / q` is at least `2^(k + 23)` units, or 0 when there is none. A
/// single-precision float of that magnitude is a multiple of `2^k` units.
pub open spec fn unit_exp(p: int, q: int, k_max: nat) -> nat
    decreases k_max,
{
    if k_max == 0 || q * two_to(k_max) * 8388608 <= p {
        k_max
    } else {
        unit_exp(p, q, (k_max - 1) as nat)
    }
}

/// The single-precision float nearest to `p / q` units of 2^-60 (a value below 2), a tie
/// going to the float with the even last digit; counted in units of 2^-60.
pub open spec fn round_units(p: int, q: int) -> int {
    let u = two_to(unit_exp(p, q, 37));
    let m = p / (q * u);
    let r = p % (q * u);
    if 2 * r > q * u || (2 * r == q * u && m % 2 == 1) {
        (m + 1) * u
    } else {
        m * u
    }
}

/// `round_units` with the sign of `p`.
pub open spec fn round_units_signed(p: int, q: int) -> int {
    if p >= 0 {
        round_units(p, q)
    } else {
        -round_units(-p, q)
    }
}

proof fn lemma_two_to_positive(k: nat)
    ensures
        two_to(k) >= 1,
    decreases k,
{
    if k > 0 {
        lemma_two_to_positive((k - 1) as nat);
    }
}

proof fn lemma_two_to_bounds(k: nat)
    requires
        k <= 37,
    ensures
        1 <= two_to(k) <= 0x20_0000_0000,
    decreases 37 - k,
{
    lemma_two_to_positive(k);
    if k < 37 {
        lemma_two_to_bounds(k + 1);
    } else {
        reveal_with_fuel(two_to, 38);
    }
}

/// The single-precision float nearest to `p / q` units of 2^-60.
pub fn round_units_of(p: u128, q: u128) -> (r: u128)
    requires
        0 < q <= 0x1_0000_0000,
        p < q * 0x2000_0000_0000_0000,
    ensures
        r == round_units(p as int, q as int),
        r <= 0x4000_0000_0000_0000,
        r * q * 8388608 <= p * 8388609 + q * 8388608,
{
    let mut k: u32 = 37;
    let mut u: u128 = 0x20_0000_0000;
    assert(two_to(37) == 0x20_0000_0000) by {
        reveal_with_fuel(two_to, 38);
    }
    while k > 0
        invariant
            0 <= k <= 37,
            u == two_to(k as nat),
            1 <= u <= 0x20_0000_0000,
            0 < q <= 0x1_0000_0000,
            unit_exp(p as int, q as int, 37) == unit_exp(p as int, q as int, k as nat),
        ensures
            unit_exp(p as int, q as int, 37) == k,
            k == 0 || q * u * 8388608 <= p,
            u == two_to(k as nat),
            1 <= u <= 0x20_0000_0000,
        decreases k,
    {
        assert(q * u <= 0x1_0000_0000 * 0x20_0000_0000) by (nonlinear_arith)
            requires
                0 < q <= 0x1_0000_0000,
                1 <= u <= 0x20_0000_0000,
        ;
        if q * u * 8388608 <= p {
            break;
        }
        k = k - 1;
        u = u / 2;
        proof {
            lemma_two_to_bounds(k as nat);
        }
    }
    proof {
        lemma_two_to_bounds(k as nat);
    }
    assert(0 < q * u <= 0x1_0000_0000 * 0x20_0000_0000) by (nonlinear_arith)
        requires
            0 < q <= 0x1_0000_0000,
            1 <= u <= 0x20_0000_0000,
    ;
    let d = q * u;
    let m = p / d;
    let rem = p % d;
    assert(0 <= m * d <= p) by (nonlinear_arith)
        requires
            m == p / d,
            d > 0,
            p >= 0,
    ;
    assert(m * u < 0x2000_0000_0000_0000) by (nonlinear_arith)
        requires
            m * d <= p,
            p < q * 0x2000_0000_0000_0000,
            d == q * u,
            q > 0,
            u > 0,
            m >= 0,
    ;
    let r = if 2 * rem > d || (2 * rem == d && m % 2 == 1) {
        m * u + u
    } else {
        m * u
    };
    assert(u == 1 || q * u * 8388608 <= p) by {
        reveal_with_fuel(two_to, 1);
    }
    assert(r * q * 8388608 <= p * 8388609 + q * 8388608) by (nonlinear_arith)
        requires
            u == 1 || q * u * 8388608 <= p,
            r <= m * u + u,
            m * d <= p,
            d == q * u,
            q > 0,
            u > 0,
            m >= 0,
            r >= 0,
    ;
    assert(r == round_units(p as int, q as int)) by (nonlinear_arith)
        requires
            u == two_to(unit_exp(p as int, q as int, 37)),
            d == q * u,
            m == p / d,
            rem == p % d,
            r == (if 2 * rem > d || (2 * rem == d && m % 2 == 1) { m * u + u } else { m * u }),
    ;
    r
}

} // verus!
