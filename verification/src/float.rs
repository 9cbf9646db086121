//! Conversions between integers and IEEE 754 floats, the floats given by their bits.
use vstd::arithmetic::div_mod::*;
use vstd::arithmetic::mul::*;
use vstd::arithmetic::power2::*;
use vstd::prelude::*;

verus! {

/// The biased exponent of a float of double precision.
pub open spec fn f64_exponent(bits: u64) -> nat {
    (bits / 0x10_0000_0000_0000 % 0x800) as nat
}

/// The fraction of a float of double precision.
pub open spec fn f64_fraction(bits: u64) -> nat {
    (bits % 0x10_0000_0000_0000) as nat
}

/// Whether a float of double precision is negative.
pub open spec fn f64_negative(bits: u64) -> bool {
    bits >= 0x8000_0000_0000_0000
}

/// Whether a float of double precision is not a number.
pub open spec fn f64_is_nan(bits: u64) -> bool {
    f64_exponent(bits) == 0x7ff && f64_fraction(bits) != 0
}

/// The absolute value of a float of double precision without what is behind the point. An infinity
/// is greater than any integer of 128 bits.
pub open spec fn f64_magnitude(bits: u64) -> nat {
    let exponent = f64_exponent(bits);
    let significand = 0x10_0000_0000_0000 + f64_fraction(bits);
    if exponent == 0 {
        0
    } else if exponent >= 1075 {
        significand * pow2((exponent - 1075) as nat)
    } else {
        significand / pow2((1075 - exponent) as nat)
    }
}

/// The integer nearest to a float in the direction of zero, saturating; zero if the float is not a
/// number.
pub open spec fn f64_to_int(bits: u64) -> int {
    if f64_is_nan(bits) {
        0
    } else if f64_negative(bits) {
        if f64_magnitude(bits) > 0x8000_0000_0000_0000_0000_0000_0000_0000 {
            i128::MIN as int
        } else {
            -(f64_magnitude(bits) as int)
        }
    } else if f64_magnitude(bits) > 0x7fff_ffff_ffff_ffff_ffff_ffff_ffff_ffff {
        i128::MAX as int
    } else {
        f64_magnitude(bits) as int
    }
}

/// A power of two.
fn power_of_two(e: u32) -> (p: u128)
    requires
        e <= 127,
    ensures
        p == pow2(e as nat),
{
    let mut p: u128 = 1;
    let mut i: u32 = 0;
    proof {
        lemma2_to64();
        lemma_pow2_127();
    }
    while i < e
        invariant
            i <= e <= 127,
            p == pow2(i as nat),
            pow2(127) == 0x8000_0000_0000_0000_0000_0000_0000_0000,
        decreases e - i,
    {
        proof {
            lemma_pow2_unfold((i + 1) as nat);
            lemma_pow2_le((i + 1) as nat, 127);
        }
        p = 2 * p;
        i = i + 1;
    }
    p
}

proof fn lemma_pow2_127()
    ensures
        pow2(127) == 0x8000_0000_0000_0000_0000_0000_0000_0000,
{
    lemma2_to64_rest();
    lemma_pow2_adds(63, 64);
}

proof fn lemma_pow2_le(a: nat, b: nat)
    requires
        a <= b,
    ensures
        0 < pow2(a) <= pow2(b),
{
    lemma_pow2_pos(a);
    if a < b {
        lemma_pow2_strictly_increases(a, b);
    }
}

/// The integer nearest to a float of double precision in the direction of zero, saturating.
pub fn float_to_int(bits: u64) -> (n: i128)
    ensures
        n == f64_to_int(bits),
{
    let exponent: u32 = (bits / 0x10_0000_0000_0000 % 0x800) as u32;
    let fraction: u64 = bits % 0x10_0000_0000_0000;
    let negative: bool = bits >= 0x8000_0000_0000_0000;
    if exponent == 0x7ff && fraction != 0 {
        return 0;
    }
    let significand: u128 = 0x10_0000_0000_0000 + fraction as u128;
    proof {
        lemma_pow2_127();
        lemma2_to64();
        lemma2_to64_rest();
    }
    if exponent < 1023 {
        proof {
            if exponent > 0 {
                let d = pow2((1075 - exponent) as nat);
                lemma_pow2_le(53, (1075 - exponent) as nat);
                lemma_basic_div(significand as int, d as int);
            }
        }
        0
    } else if exponent >= 1150 {
        proof {
            let k = (exponent - 1075) as nat;
            lemma_pow2_le(75, k);
            lemma_pow2_adds(52, 75);
            lemma_mul_inequality(0x10_0000_0000_0000, significand as int, pow2(k) as int);
            lemma_mul_inequality(pow2(75) as int, pow2(k) as int, 0x10_0000_0000_0000);
            lemma_mul_is_commutative(pow2(75) as int, 0x10_0000_0000_0000);
            lemma_mul_is_commutative(pow2(k) as int, 0x10_0000_0000_0000);
        }
        if negative {
            i128::MIN
        } else {
            i128::MAX
        }
    } else {
        let magnitude: u128 = if exponent >= 1075 {
            let p: u128 = power_of_two(exponent - 1075);
            proof {
                let k = (exponent - 1075) as nat;
                lemma_pow2_le(k, 74);
                lemma_pow2_adds(53, 74);
                lemma_mul_strict_inequality(
                    significand as int,
                    0x20_0000_0000_0000,
                    pow2(k) as int,
                );
                lemma_mul_inequality(pow2(k) as int, pow2(74) as int, 0x20_0000_0000_0000);
                lemma_mul_is_commutative(pow2(k) as int, 0x20_0000_0000_0000);
                lemma_mul_is_commutative(pow2(74) as int, 0x20_0000_0000_0000);
            }
            significand * p
        } else {
            let p: u128 = power_of_two(1075 - exponent);
            proof {
                lemma_pow2_pos((1075 - exponent) as nat);
                lemma_div_is_ordered_by_denominator(significand as int, 1, p as int);
            }
            significand / p
        };
        if negative {
            -(magnitude as i128)
        } else {
            magnitude as i128
        }
    }
}

/// The position of the highest bit that is set.
pub open spec fn floor_log2(n: nat) -> nat
    decreases n,
{
    if n < 2 {
        0
    } else {
        1 + floor_log2(n / 2)
    }
}

proof fn lemma_floor_log2(n: nat)
    requires
        n > 0,
    ensures
        pow2(floor_log2(n)) <= n < pow2(floor_log2(n) + 1),
    decreases n,
{
    lemma2_to64();
    if n >= 2 {
        lemma_floor_log2(n / 2);
        lemma_pow2_unfold(floor_log2(n));
        lemma_pow2_unfold(floor_log2(n) + 1);
    }
}

/// `n / 2^s`, rounded to the nearest integer, and to the even one of two that are equally near.
pub open spec fn round_half_even(n: nat, s: nat) -> nat {
    let q = n / pow2(s);
    let r = n % pow2(s);
    if 2 * r > pow2(s) || (2 * r == pow2(s) && q % 2 == 1) {
        q + 1
    } else {
        q
    }
}

/// The bits of the positive float nearest to `n > 0`, in a format with `precision` significant bits
/// and exponents biased by `bias`: the leading bit of the significand is not stored, so that a
/// significand that rounds up to the next power of two carries into the exponent.
pub open spec fn positive_float_bits(n: nat, precision: nat, bias: nat) -> int {
    let e = floor_log2(n);
    let significand = if e < precision {
        n * pow2((precision - 1 - e) as nat)
    } else {
        round_half_even(n, (e - (precision - 1)) as nat)
    };
    (e + bias) * pow2((precision - 1) as nat) + significand - pow2((precision - 1) as nat)
}

/// The bits of the float of single precision nearest to `n`.
pub open spec fn f32_from_int(n: int) -> int {
    if n == 0 {
        0
    } else if n > 0 {
        positive_float_bits(n as nat, 24, 127)
    } else {
        0x8000_0000 + positive_float_bits((-n) as nat, 24, 127)
    }
}

/// The bits of the float of double precision nearest to `n`.
pub open spec fn f64_from_int(n: int) -> int {
    if n == 0 {
        0
    } else if n > 0 {
        positive_float_bits(n as nat, 53, 1023)
    } else {
        0x8000_0000_0000_0000 + positive_float_bits((-n) as nat, 53, 1023)
    }
}

/// The bits of the positive float nearest to `n`.
fn positive_float(n: u128, precision: u32, bias: u32) -> (bits: u64)
    requires
        0 < n <= 0x8000_0000_0000_0000_0000_0000_0000_0000,
        2 <= precision <= 53,
        bias <= 1023,
    ensures
        bits == positive_float_bits(n as nat, precision as nat, bias as nat),
        bits <= (128 + bias) * pow2((precision - 1) as nat),
{
    let mut e: u32 = 0;
    let mut rest: u128 = n;
    let ghost exp = floor_log2(n as nat);
    proof {
        lemma_floor_log2(n as nat);
        lemma_pow2_127();
        if exp > 127 {
            lemma_pow2_le(128, exp);
            lemma_pow2_unfold(128);
        }
    }
    while rest >= 2
        invariant
            rest > 0,
            exp == e + floor_log2(rest as nat),
            exp <= 127,
        decreases rest,
    {
        rest = rest / 2;
        e = e + 1;
    }
    let unit: u128 = power_of_two(precision - 1);
    proof {
        lemma2_to64_rest();
        lemma2_to64();
        lemma_pow2_le((precision - 1) as nat, 52);
        lemma_pow2_unfold(precision as nat);
    }
    let significand: u128 = if e < precision {
        let p: u128 = power_of_two(precision - 1 - e);
        proof {
            lemma_pow2_adds(e as nat, (precision - 1 - e) as nat);
            lemma_pow2_adds((e + 1) as nat, (precision - 1 - e) as nat);
            lemma_pow2_pos((precision - 1 - e) as nat);
            lemma_mul_inequality(pow2(e as nat) as int, n as int, p as int);
            lemma_mul_strict_inequality(n as int, pow2((e + 1) as nat) as int, p as int);
        }
        n * p
    } else {
        let s: u32 = e - (precision - 1);
        let p: u128 = power_of_two(s);
        proof {
            lemma_pow2_pos(s as nat);
            lemma_pow2_adds((precision - 1) as nat, s as nat);
            lemma_pow2_adds(precision as nat, s as nat);
            lemma_div_is_ordered(pow2(e as nat) as int, n as int, p as int);
            lemma_div_by_multiple(pow2((precision - 1) as nat) as int, p as int);
            lemma_fundamental_div_mod(n as int, p as int);
            assert(n as int / (p as int) < pow2(precision as nat)) by {
                lemma_div_by_multiple_is_strongly_ordered(
                    n as int,
                    pow2(precision as nat) * p,
                    pow2(precision as nat) as int,
                    p as int,
                );
                lemma_div_by_multiple(pow2(precision as nat) as int, p as int);
            }
            lemma_pow2_le(s as nat, 126);
            lemma_pow2_unfold(127);
        }
        let q: u128 = n / p;
        let r: u128 = n % p;
        if 2 * r > p || (2 * r == p && q % 2 == 1) {
            q + 1
        } else {
            q
        }
    };
    proof {
        assert(pow2((precision - 1) as nat) <= significand <= 2 * pow2((precision - 1) as nat));
        assert((e + bias) * unit <= 1150 * 0x10_0000_0000_0000) by (nonlinear_arith)
            requires
                0 <= e + bias <= 1150,
                0 <= unit <= 0x10_0000_0000_0000,
        ;
        assert((e + bias) * unit + unit == (e + bias + 1) * unit) by (nonlinear_arith);
        assert((e + bias + 1) * unit <= (128 + bias) * unit) by (nonlinear_arith)
            requires
                e <= 127,
                unit >= 0,
        ;
    }
    ((e + bias) as u128 * unit + significand - unit) as u64
}

/// The bits of the float of single precision nearest to `n`.
pub fn int_to_f32_bits(n: i128) -> (bits: u32)
    ensures
        bits == f32_from_int(n as int),
{
    proof {
        lemma2_to64();
    }
    if n == 0 {
        0
    } else if n > 0 {
        positive_float(n as u128, 24, 127) as u32
    } else {
        let magnitude: u128 = (-(n + 1)) as u128 + 1;
        positive_float(magnitude, 24, 127) as u32 + 0x8000_0000
    }
}

/// The bits of the float of double precision nearest to `n`.
pub fn int_to_f64_bits(n: i128) -> (bits: u64)
    ensures
        bits == f64_from_int(n as int),
{
    proof {
        lemma2_to64_rest();
    }
    if n == 0 {
        0
    } else if n > 0 {
        positive_float(n as u128, 53, 1023)
    } else {
        let magnitude: u128 = (-(n + 1)) as u128 + 1;
        positive_float(magnitude, 53, 1023) + 0x8000_0000_0000_0000
    }
}

/// The parts of the float nearest to an integer of up to 53 bits, which is exact.
proof fn lemma_exact_double(n: nat)
    requires
        0 < n <= 0x20_0000_0000_0000,
    ensures
        ({
            let bits = positive_float_bits(n, 53, 1023);
            let exponent = bits / 0x10_0000_0000_0000;
            let significand = 0x10_0000_0000_0000 + bits % 0x10_0000_0000_0000;
            &&& 0 <= bits < 0x7ff0_0000_0000_0000
            &&& 1023 <= exponent <= 1076
            &&& exponent >= 1075 ==> n == significand * pow2((exponent - 1075) as nat)
            &&& exponent < 1075 ==> n == significand / pow2((1075 - exponent) as nat) as int
        }),
{
    let e = floor_log2(n);
    let unit = 0x10_0000_0000_0000int;
    let bits = positive_float_bits(n, 53, 1023);
    lemma_floor_log2(n);
    lemma2_to64();
    lemma2_to64_rest();
    if e > 53 {
        lemma_pow2_le(54, e);
    }
    if e < 53 {
        let p = pow2((52 - e) as nat) as int;
        let significand = n * p;
        lemma_pow2_pos((52 - e) as nat);
        lemma_pow2_adds(e, (52 - e) as nat);
        lemma_pow2_adds(e + 1, (52 - e) as nat);
        lemma_mul_inequality(pow2(e) as int, n as int, p);
        lemma_mul_strict_inequality(n as int, pow2(e + 1) as int, p);
        assert(unit <= significand < 2 * unit);
        assert(bits == (e + 1023) * unit + (significand - unit));
        lemma_fundamental_div_mod_converse(bits, unit, (e + 1023) as int, significand - unit);
        lemma_div_by_multiple(n as int, p);
        assert(bits / unit == e + 1023 && unit + bits % unit == significand);
        assert(significand / p == n);
        if e == 52 {
            assert(n * p == n) by (nonlinear_arith)
                requires
                    p == 1,
            ;
        }
    } else {
        // The only such number is the power of two.
        assert(n == pow2(53));
        assert(pow2(1) == 2);
        assert(round_half_even(n, 1) == unit);
        assert(bits == 1076 * unit);
        lemma_fundamental_div_mod_converse(bits, unit, 1076, 0);
    }
}

/// Converting an integer of up to 53 bits to a float of double precision and back gives the integer.
pub proof fn law_float_round_trip(n: int)
    requires
        -0x20_0000_0000_0000 <= n <= 0x20_0000_0000_0000,
    ensures
        0 <= f64_from_int(n) <= u64::MAX,
        f64_to_int(f64_from_int(n) as u64) == n,
{
    let bits = f64_from_int(n);
    if n != 0 {
        let m = (if n > 0 {
            n
        } else {
            -n
        }) as nat;
        lemma_exact_double(m);
        let positive = positive_float_bits(m, 53, 1023);
        let word = bits as u64;
        let sign = if n > 0 {
            0int
        } else {
            0x800
        };
        let unit = 0x10_0000_0000_0000int;
        assert(bits == sign * unit + positive);
        lemma_fundamental_div_mod(positive, unit);
        lemma_fundamental_div_mod_converse(bits, unit, sign + positive / unit, positive % unit);
        assert(f64_exponent(word) == positive / unit);
        assert(f64_fraction(word) == positive % unit);
        assert(f64_magnitude(word) == m);
    }
}

/// The position of the highest bit is the only one whose power of two does not exceed the number,
/// while the next one does.
proof fn lemma_highest_bit(n: nat, e: nat)
    requires
        pow2(e) <= n < pow2(e + 1),
    ensures
        floor_log2(n) == e,
{
    let f = floor_log2(n);
    lemma_pow2_pos(e);
    lemma_floor_log2(n);
    if f < e {
        lemma_pow2_le(f + 1, e);
    } else if e < f {
        lemma_pow2_le(e + 1, f);
    }
}

/// Whether `q` times `unit` is nearest to `n`: not more than half a unit away, and even where it is
/// exactly that.
pub open spec fn is_nearest(q: int, n: int, unit: int) -> bool {
    &&& -unit <= 2 * (n - q * unit) <= unit
    &&& (2 * (n - q * unit) == unit || 2 * (n - q * unit) == -unit) ==> q % 2 == 0
}

/// Rounding gives the nearest multiple of a power of two, and the even one of two that are equally
/// near.
pub proof fn law_rounding(q: int, n: nat, s: nat)
    requires
        is_nearest(q, n as int, pow2(s) as int),
    ensures
        round_half_even(n, s) == q,
{
    let unit = pow2(s) as int;
    let q0 = n as int / unit;
    let r0 = n as int % unit;
    lemma_pow2_pos(s);
    lemma_fundamental_div_mod(n as int, unit);
    lemma_mod_bound(n as int, unit);
    let d = q0 - q;
    assert(n - q * unit == d * unit + r0) by (nonlinear_arith)
        requires
            n == unit * q0 + r0,
            d == q0 - q,
    ;
    assert(d == 0 || d == -1) by (nonlinear_arith)
        requires
            -unit <= 2 * (d * unit + r0) <= unit,
            0 <= r0 < unit,
    ;
    assert(d == 0 ==> d * unit == 0) by (nonlinear_arith);
    assert(d == -1 ==> d * unit == -unit) by (nonlinear_arith);
}

/// The float nearest to a positive integer. Its exponent is the position `e` of the highest bit, its
/// significand `q` the nearest number of as many bits as the format has; a number that fits is
/// exact. The leading bit of the significand is not stored.
pub proof fn law_nearest_float(n: nat, precision: nat, bias: nat, e: nat, q: int)
    requires
        precision >= 1,
        pow2(e) <= n < pow2(e + 1),
        e < precision ==> q == n * pow2((precision - 1 - e) as nat),
        e >= precision ==> is_nearest(q, n as int, pow2((e - (precision - 1)) as nat) as int),
    ensures
        positive_float_bits(n, precision, bias) == (e + bias) * pow2((precision - 1) as nat) + (q
            - pow2((precision - 1) as nat)),
{
    lemma_highest_bit(n, e);
    if e >= precision {
        law_rounding(q, n, (e - (precision - 1)) as nat);
    }
}

/// The floats nearest to integers: zero has no bits set, a negative integer differs from its opposite
/// by the sign bit alone, and a positive one has the parts of the format.
pub proof fn law_float_from_int(n: int)
    requires
        n > 0,
    ensures
        f32_from_int(0) == 0,
        f64_from_int(0) == 0,
        f32_from_int(-n) == 0x8000_0000 + f32_from_int(n),
        f64_from_int(-n) == 0x8000_0000_0000_0000 + f64_from_int(n),
        f32_from_int(n) == positive_float_bits(n as nat, 24, 127),
        f64_from_int(n) == positive_float_bits(n as nat, 53, 1023),
{
}

/// The integer that a float of double precision is truncated to. The float has a sign, an exponent
/// and a fraction; without the sign, the integer is the greatest one that does not exceed the
/// significand times the power of two, and it stays within the integers of 128 bits.
pub proof fn law_truncation(bits: u64, negative: bool, exponent: nat, fraction: nat, m: nat)
    requires
        exponent < 0x7ff,
        fraction < 0x10_0000_0000_0000,
        bits == (if negative {
            0x8000_0000_0000_0000int
        } else {
            0int
        }) + exponent * 0x10_0000_0000_0000 + fraction,
        exponent == 0 ==> m == 0,
        0 < exponent < 1075 ==> m * pow2((1075 - exponent) as nat) <= 0x10_0000_0000_0000 + fraction
            < (m + 1) * pow2((1075 - exponent) as nat),
        exponent >= 1075 ==> m == (0x10_0000_0000_0000 + fraction) * pow2((exponent - 1075) as nat),
    ensures
        !negative && m <= i128::MAX ==> f64_to_int(bits) == m,
        !negative && m > i128::MAX ==> f64_to_int(bits) == i128::MAX,
        negative && -m >= i128::MIN ==> f64_to_int(bits) == -m,
        negative && -m < i128::MIN ==> f64_to_int(bits) == i128::MIN,
{
    let unit = 0x10_0000_0000_0000int;
    let top = (if negative {
        0x800int
    } else {
        0int
    }) + exponent;
    lemma_fundamental_div_mod_converse(bits as int, unit, top, fraction as int);
    assert(f64_fraction(bits) == fraction);
    assert(f64_exponent(bits) == exponent);
    if 0 < exponent < 1075 {
        let d = pow2((1075 - exponent) as nat) as int;
        let significand = unit + fraction;
        lemma_pow2_pos((1075 - exponent) as nat);
        assert(significand == d * m + (significand - d * m) && 0 <= significand - d * m < d)
            by (nonlinear_arith)
            requires
                m * d <= significand < (m + 1) * d,
        ;
        lemma_mul_is_commutative(m as int, d);
        lemma_fundamental_div_mod_converse(significand, d, m as int, significand - d * m);
    }
}

/// An infinity is truncated to the greatest or the least integer of 128 bits, and what is no number
/// to zero.
pub proof fn law_truncation_limits(bits: u64)
    ensures
        bits == 0x7ff0_0000_0000_0000 ==> f64_to_int(bits) == i128::MAX,
        bits == 0xfff0_0000_0000_0000 ==> f64_to_int(bits) == i128::MIN,
        0x7ff0_0000_0000_0000 < bits < 0x8000_0000_0000_0000 ==> f64_to_int(bits) == 0,
        bits > 0xfff0_0000_0000_0000 ==> f64_to_int(bits) == 0,
{
    lemma_pow2_127();
    lemma2_to64();
    lemma2_to64_rest();
    lemma_pow2_le(75, 972);
    lemma_pow2_adds(52, 75);
    assert(0x10_0000_0000_0000 * pow2(972) >= 0x10_0000_0000_0000 * pow2(75)) by (nonlinear_arith)
        requires
            pow2(972) >= pow2(75),
    ;
}

} // verus!
