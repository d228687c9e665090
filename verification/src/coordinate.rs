//! Comparison of pointer coordinates with whole pixels.
//!
//! A coordinate is the bit pattern of an IEEE 754 double. Comparing a double
//! with an integer involves no rounding, so it is decided here, on the bits.
use vstd::arithmetic::power2::{lemma_pow2_adds, lemma_pow2_pos, pow2};
use vstd::prelude::*;

verus! {

/// The sign bit: set for negative coordinates.
pub open spec fn is_negative(bits: u64) -> bool {
    bits >= 0x8000_0000_0000_0000
}

/// The eleven exponent bits.
pub open spec fn exponent(bits: u64) -> int {
    ((bits / 0x0010_0000_0000_0000) % 0x800) as int
}

/// The fifty-two fraction bits.
pub open spec fn fraction(bits: u64) -> int {
    (bits % 0x0010_0000_0000_0000) as int
}

/// The pattern stands for no number.
pub open spec fn is_nan(bits: u64) -> bool {
    exponent(bits) == 0x7ff && fraction(bits) != 0
}

/// The coordinate's magnitude, as a multiple of the smallest positive double,
/// two to the power of minus 1074. An infinity counts as two to the power of
/// 1024, which is beyond every finite double.
pub open spec fn magnitude(bits: u64) -> int {
    if exponent(bits) == 0 {
        fraction(bits)
    } else {
        (fraction(bits) + 0x0010_0000_0000_0000) * pow2((exponent(bits) - 1) as nat)
    }
}

/// The coordinate, as a multiple of the smallest positive double.
pub open spec fn units(bits: u64) -> int {
    if is_negative(bits) {
        -magnitude(bits)
    } else {
        magnitude(bits)
    }
}

/// The coordinate is a number and not less than the integer `n`.
pub open spec fn at_least(bits: u64, n: int) -> bool {
    !is_nan(bits) && units(bits) >= n * pow2(1074)
}

/// The coordinate is a number and less than the integer `n`.
pub open spec fn below(bits: u64, n: int) -> bool {
    !is_nan(bits) && units(bits) < n * pow2(1074)
}

/// Beyond this many pixels from the origin, cells are not told apart.
pub const CELL_LIMIT: i64 = 0x4000_0000_0000_0000;

/// `whole` is the integer part of the coordinate's magnitude, and `exact` says
/// that nothing is cut off; or the magnitude is beyond the limit.
spec fn brackets(bits: u64, whole: int, exact: bool) -> bool {
    ||| {
        &&& whole * pow2(1074) <= magnitude(bits) < (whole + 1) * pow2(1074)
        &&& exact == (magnitude(bits) == whole * pow2(1074))
    }
    ||| {
        &&& whole == CELL_LIMIT
        &&& exact
        &&& magnitude(bits) >= CELL_LIMIT * pow2(1074)
    }
}

proof fn lemma_mantissa_width(exp: nat)
    ensures
        0x0010_0000_0000_0000 * pow2(exp) == pow2(exp + 52),
        0x0020_0000_0000_0000 * pow2(exp) == pow2(exp + 53),
{
    vstd::arithmetic::power2::lemma2_to64_rest();
    lemma_pow2_adds(52, exp);
    lemma_pow2_adds(53, exp);
}

proof fn lemma_pow2_monotonic(a: nat, b: nat)
    requires
        a <= b,
    ensures
        pow2(a) <= pow2(b),
{
    if a < b {
        vstd::arithmetic::power2::lemma_pow2_strictly_increases(a, b);
    }
}

proof fn lemma_small(bits: u64)
    requires
        exponent(bits) < 1023,
    ensures
        brackets(bits, 0, exponent(bits) == 0 && fraction(bits) == 0),
{
    lemma_pow2_pos(1074);
    if exponent(bits) == 0 {
        vstd::arithmetic::power2::lemma2_to64_rest();
        lemma_pow2_monotonic(52, 1074);
    } else {
        let scale = (exponent(bits) - 1) as nat;
        let m = fraction(bits) + 0x0010_0000_0000_0000;
        lemma_pow2_pos(scale);
        lemma_mantissa_width(scale);
        lemma_pow2_monotonic(scale + 53, 1074);
        assert(0 < m * pow2(scale) < 0x0020_0000_0000_0000 * pow2(scale)) by (nonlinear_arith)
            requires
                0 < m < 0x0020_0000_0000_0000,
                pow2(scale) > 0,
        ;
    }
}

proof fn lemma_large(bits: u64)
    requires
        exponent(bits) >= 1085,
    ensures
        brackets(bits, CELL_LIMIT as int, true),
{
    let scale = (exponent(bits) - 1) as nat;
    let m = fraction(bits) + 0x0010_0000_0000_0000;
    lemma_pow2_pos(scale);
    lemma_mantissa_width(scale);
    vstd::arithmetic::power2::lemma2_to64_rest();
    lemma_pow2_adds(62, 1074);
    lemma_pow2_monotonic(1136, scale + 52);
    assert(m * pow2(scale) >= 0x0010_0000_0000_0000 * pow2(scale)) by (nonlinear_arith)
        requires
            m >= 0x0010_0000_0000_0000,
            pow2(scale) > 0,
    ;
}

proof fn lemma_medium(bits: u64, k: nat, q: int, r: int)
    requires
        1023 <= exponent(bits) < 1075,
        k == 1075 - exponent(bits),
        fraction(bits) + 0x0010_0000_0000_0000 == q * pow2(k) + r,
        0 <= r < pow2(k),
    ensures
        brackets(bits, q, r == 0),
{
    let scale = (exponent(bits) - 1) as nat;
    let p = pow2(scale) as int;
    let t = pow2(k) as int;
    lemma_pow2_pos(scale);
    lemma_pow2_adds(k, scale);
    assert((q * t + r) * p == q * (t * p) + r * p) by (nonlinear_arith);
    assert(0 <= r * p < t * p && (r * p == 0 <==> r == 0)) by (nonlinear_arith)
        requires
            0 <= r < t,
            p > 0,
    ;
    assert((q + 1) * (t * p) == q * (t * p) + t * p) by (nonlinear_arith);
}

proof fn lemma_whole(bits: u64, k: nat)
    requires
        1075 <= exponent(bits),
        k == exponent(bits) - 1075,
    ensures
        brackets(bits, (fraction(bits) + 0x0010_0000_0000_0000) * pow2(k), true),
{
    let m = fraction(bits) + 0x0010_0000_0000_0000;
    let p = pow2(k) as int;
    let u = pow2(1074) as int;
    lemma_pow2_pos(1074);
    lemma_pow2_adds(k, 1074);
    assert(m * (p * u) == (m * p) * u) by (nonlinear_arith);
    assert((m * p + 1) * u == (m * p) * u + u) by (nonlinear_arith);
}

/// A bracketed magnitude decides the comparison with every integer in range.
proof fn lemma_cell_decides(bits: u64, whole: int, exact: bool, n: int)
    requires
        !is_nan(bits),
        brackets(bits, whole, exact),
        0 <= whole <= CELL_LIMIT,
        -CELL_LIMIT < n <= CELL_LIMIT,
    ensures
        !is_negative(bits) ==> (whole >= n <==> at_least(bits, n)),
        is_negative(bits) && exact ==> (-whole >= n <==> at_least(bits, n)),
        is_negative(bits) && !exact ==> (-whole - 1 >= n <==> at_least(bits, n)),
{
    let u = pow2(1074) as int;
    let mag = magnitude(bits);
    let limit = CELL_LIMIT as int;
    lemma_pow2_pos(1074);
    if mag >= limit * u {
        assert(mag >= n * u) by (nonlinear_arith)
            requires
                mag >= limit * u,
                n <= limit,
                u > 0,
        ;
        assert(-mag < n * u) by (nonlinear_arith)
            requires
                mag >= limit * u,
                -limit < n,
                u > 0,
        ;
        if whole < limit {
            assert(mag < limit * u) by (nonlinear_arith)
                requires
                    mag < (whole + 1) * u,
                    whole + 1 <= limit,
                    u > 0,
            ;
        }
    }
    if whole >= n {
        assert(whole * u >= n * u) by (nonlinear_arith)
            requires
                whole >= n,
                u > 0,
        ;
    } else {
        assert((whole + 1) * u <= n * u) by (nonlinear_arith)
            requires
                whole + 1 <= n,
                u > 0,
        ;
    }
    if -whole >= n {
        assert(-(whole * u) >= n * u) by (nonlinear_arith)
            requires
                -whole >= n,
                u > 0,
        ;
        if -whole == n {
            assert(-(whole * u) == n * u) by (nonlinear_arith)
                requires
                    -whole == n,
            ;
        } else {
            assert(-((whole + 1) * u) >= n * u) by (nonlinear_arith)
                requires
                    -whole - 1 >= n,
                    u > 0,
            ;
        }
    } else {
        assert(-(whole * u) < n * u) by (nonlinear_arith)
            requires
                -whole < n,
                u > 0,
        ;
    }
}

/// The greatest integer that is not above the coordinate, ending at
/// plus and minus [`CELL_LIMIT`]; `None` where the pattern is no number.
pub fn cell(bits: u64) -> (result: Option<i64>)
    ensures
        result is None <==> is_nan(bits),
        result matches Some(c) ==> -CELL_LIMIT <= c <= CELL_LIMIT,
        result matches Some(c) ==> forall|n: int|
            -CELL_LIMIT < n <= CELL_LIMIT ==> (c >= n <==> #[trigger] at_least(bits, n)),
{
    let e: u64 = (bits / 0x0010_0000_0000_0000) % 0x800;
    let f: u64 = bits % 0x0010_0000_0000_0000;
    if e == 0x7ff && f != 0 {
        return None;
    }
    let m: u64 = f + 0x0010_0000_0000_0000;
    let (whole, exact): (i64, bool) = if e < 1023 {
        proof {
            lemma_small(bits);
        }
        (0, e == 0 && f == 0)
    } else if e < 1075 {
        let k: u64 = 1075 - e;
        let t: u64 = 1u64 << k;
        proof {
            assert(1 <= 1u64 << k) by (bit_vector)
                requires
                    k < 64,
            ;
            vstd::arithmetic::power2::lemma2_to64_rest();
            lemma_pow2_monotonic(k as nat, 52);
            vstd::bits::lemma_u64_shl_is_mul(1, k);
            vstd::arithmetic::div_mod::lemma_fundamental_div_mod(m as int, t as int);
            lemma_medium(bits, k as nat, (m / t) as int, (m % t) as int);
            assert(m / t <= m) by (nonlinear_arith)
                requires
                    t >= 1,
            ;
        }
        ((m / t) as i64, m % t == 0)
    } else if e < 1085 {
        let k: u64 = e - 1075;
        proof {
            assert(m << k < 0x4000_0000_0000_0000) by (bit_vector)
                requires
                    k < 10,
                    m < 0x0020_0000_0000_0000,
            ;
            vstd::arithmetic::power2::lemma2_to64();
            lemma_pow2_monotonic(k as nat, 9);
            let p = pow2(k as nat) as int;
            assert(m * p <= 0x0020_0000_0000_0000 * 512) by (nonlinear_arith)
                requires
                    m < 0x0020_0000_0000_0000,
                    0 <= p <= 512,
            ;
            vstd::bits::lemma_u64_shl_is_mul(m, k);
            lemma_whole(bits, k as nat);
        }
        ((m << k) as i64, true)
    } else {
        proof {
            lemma_large(bits);
        }
        (CELL_LIMIT, true)
    };
    proof {
        assert forall|n: int| -CELL_LIMIT < n <= CELL_LIMIT implies {
            &&& !is_negative(bits) ==> (whole >= n <==> #[trigger] at_least(bits, n))
            &&& is_negative(bits) && exact ==> (-whole >= n <==> at_least(bits, n))
            &&& is_negative(bits) && !exact ==> (-whole - 1 >= n <==> at_least(bits, n))
        } by {
            lemma_cell_decides(bits, whole as int, exact, n);
        }
    }
    if bits < 0x8000_0000_0000_0000 {
        Some(whole)
    } else if exact {
        Some(-whole)
    } else {
        Some(-whole - 1)
    }
}

/// Every number lies on one side of an integer.
pub proof fn law_sides_exclude_each_other(bits: u64, n: int)
    ensures
        at_least(bits, n) || below(bits, n) <==> !is_nan(bits),
        !(at_least(bits, n) && below(bits, n)),
{
}

/// Below two to the power of fifty-three, a coordinate is its mantissa divided
/// by a power of two, and comparing it with an integer compares the mantissa
/// with a multiple of that power.
pub proof fn law_mantissa_decides(bits: u64, n: int)
    requires
        1 <= exponent(bits) <= 1075,
    ensures
        ({
            let m = fraction(bits) + 0x0010_0000_0000_0000;
            let mantissa = if is_negative(bits) { -m } else { m };
            at_least(bits, n) <==> mantissa >= n * pow2((1075 - exponent(bits)) as nat)
        }),
{
    let m = fraction(bits) + 0x0010_0000_0000_0000;
    let mantissa = if is_negative(bits) {
        -m
    } else {
        m
    };
    let k = (1075 - exponent(bits)) as nat;
    let scale = (exponent(bits) - 1) as nat;
    let t = pow2(k) as int;
    let p = pow2(scale) as int;
    lemma_pow2_pos(scale);
    lemma_pow2_adds(k, scale);
    assert((-m) * p == -(m * p)) by (nonlinear_arith);
    assert(n * (t * p) == (n * t) * p) by (nonlinear_arith);
    assert(mantissa * p >= (n * t) * p <==> mantissa >= n * t) by (nonlinear_arith)
        requires
            p > 0,
    ;
}

/// A coordinate compares with an integer as the number that its bits stand for: a
/// sign, eleven bits of exponent and fifty-two of fraction. The number is, in
/// units of the smallest positive double, the fraction with a leading one,
/// shifted by one less than the exponent; without the leading one and unshifted
/// where the exponent is zero. The greatest exponent stands for an infinity, and
/// with a fraction for no number, which is on neither side of anything.
pub proof fn law_coordinates_compare_as_numbers(
    bits: u64,
    negative: bool,
    e: int,
    f: int,
    n: int,
)
    requires
        0 <= e < 0x800,
        0 <= f < 0x0010_0000_0000_0000,
        bits == (if negative {
            0x8000_0000_0000_0000int
        } else {
            0
        }) + e * 0x0010_0000_0000_0000 + f,
    ensures
        e == 0x7ff && f != 0 ==> !at_least(bits, n) && !below(bits, n),
        e != 0x7ff || f == 0 ==> {
            let number = if e == 0 {
                f
            } else {
                (0x0010_0000_0000_0000 + f) * pow2((e - 1) as nat)
            };
            &&& !negative ==> (at_least(bits, n) <==> number >= n * pow2(1074))
            &&& !negative ==> (below(bits, n) <==> number < n * pow2(1074))
            &&& negative ==> (at_least(bits, n) <==> -number >= n * pow2(1074))
            &&& negative ==> (below(bits, n) <==> -number < n * pow2(1074))
        },
{
    assert(exponent(bits) == e);
    assert(fraction(bits) == f);
    assert(is_negative(bits) == negative);
}

/// What is not less than an integer is not less than any smaller one.
pub proof fn law_sides_are_ordered(bits: u64, n: int, m: int)
    requires
        m <= n,
    ensures
        at_least(bits, n) ==> at_least(bits, m),
        below(bits, m) ==> below(bits, n),
{
    let u = pow2(1074) as int;
    lemma_pow2_pos(1074);
    assert(m * u <= n * u) by (nonlinear_arith)
        requires
            m <= n,
            u > 0,
    ;
}

} // verus!
