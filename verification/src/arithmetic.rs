use vstd::prelude::*;

verus! {

/// The number of values of a 64-bit integer.
pub const MODULUS: u128 = 0x1_0000_0000_0000_0000;

/// The distance of `x` from zero.
pub open spec fn magnitude(x: int) -> int {
    if x < 0 {
        -x
    } else {
        x
    }
}

/// The sum of `a` and `b` as a 64-bit signed integer holds it: the sum itself
/// where it fits, and else the sum moved by `MODULUS` back into the range.
pub open spec fn wrapped_sum(a: int, b: int) -> int {
    if a + b > i64::MAX {
        a + b - MODULUS
    } else if a + b < i64::MIN {
        a + b + MODULUS
    } else {
        a + b
    }
}

/// The quotient of `a` by a non-zero `b`, rounded towards zero: the quotient
/// of the magnitudes, with the sign of the exact quotient. Each division
/// below is one of a number that is not negative by a positive one.
pub open spec fn quotient(a: int, b: int) -> int
    recommends
        b != 0,
{
    if a >= 0 && b > 0 {
        a / b
    } else if a >= 0 {
        -(a / (-b))
    } else if b > 0 {
        -((-a) / b)
    } else {
        (-a) / (-b)
    }
}

/// Whether the quotient of `a` by `b` is too large for a 64-bit signed
/// integer: so it is for the least such integer divided by -1.
pub open spec fn spec_quotient_overflows(a: i64, b: i64) -> bool {
    a == i64::MIN && b == -1
}

/// Whether the quotient of `a` by `b` is too large for a 64-bit signed
/// integer.
#[verifier::when_used_as_spec(spec_quotient_overflows)]
pub fn quotient_overflows(a: i64, b: i64) -> (overflows: bool)
    ensures
        overflows == spec_quotient_overflows(a, b),
{
    a == i64::MIN && b == -1
}

/// A wrapped sum is a 64-bit signed integer, and differs from the sum by
/// nothing or by `MODULUS`; it is the sum wherever the sum fits.
pub proof fn lemma_wrapped_sum(a: i64, b: i64)
    ensures
        i64::MIN <= wrapped_sum(a as int, b as int) <= i64::MAX,
        (wrapped_sum(a as int, b as int) - (a + b)) % (MODULUS as int) == 0,
        i64::MIN <= a + b <= i64::MAX ==> wrapped_sum(a as int, b as int) == a + b,
{
}

/// Dividing by a negative number negates the quotient of the division by its
/// magnitude, for a dividend that is not negative.
proof fn lemma_negative_divisor(x: int, d: int)
    requires
        x >= 0,
        d > 0,
    ensures
        x / (-d) == -(x / d),
{
    assert(x / (-d) == -(x / d)) by (nonlinear_arith)
        requires
            x >= 0,
            d > 0,
    ;
}

/// What is left when `quotient(a, b)` times `b` is taken from `a` is nearer
/// to zero than `b` and lies on the side of `a`: the quotient is rounded
/// towards zero.
pub proof fn lemma_quotient_truncates(a: int, b: int)
    requires
        b != 0,
    ensures
        magnitude(a - quotient(a, b) * b) < magnitude(b),
        a >= 0 ==> a - quotient(a, b) * b >= 0,
        a <= 0 ==> a - quotient(a, b) * b <= 0,
{
    let x = magnitude(a);
    let d = magnitude(b);
    let q = x / d;
    assert(x == q * d + x % d && 0 <= x % d < d) by (nonlinear_arith)
        requires
            q == x / d,
            d > 0,
    ;
    assert(quotient(a, b) * b == if a >= 0 { q * d } else { -(q * d) }) by (nonlinear_arith)
        requires
            quotient(a, b) == if (a >= 0) == (b > 0) { q } else { -q },
            d == if b < 0 { -b } else { b },
            b != 0,
    ;
}

/// No other integer does so: one that leaves less than `b` on the side of `a`
/// is `quotient(a, b)`.
pub proof fn lemma_quotient_unique(a: int, b: int, q: int)
    requires
        b != 0,
        magnitude(a - q * b) < magnitude(b),
        a >= 0 ==> a - q * b >= 0,
        a <= 0 ==> a - q * b <= 0,
    ensures
        q == quotient(a, b),
{
    lemma_quotient_truncates(a, b);
    let p = quotient(a, b);
    assert(p == q) by (nonlinear_arith)
        requires
            b != 0,
            magnitude(a - q * b) < magnitude(b),
            magnitude(a - p * b) < magnitude(b),
            a >= 0 ==> a - q * b >= 0 && a - p * b >= 0,
            a <= 0 ==> a - q * b <= 0 && a - p * b <= 0,
    ;
}

/// The quotient of 64-bit signed integers is such an integer for every pair
/// but the one of which `quotient_overflows` holds.
pub proof fn lemma_quotient_fits(a: i64, b: i64)
    requires
        b != 0,
    ensures
        quotient_overflows(a, b) <==> !(i64::MIN <= quotient(a as int, b as int) <= i64::MAX),
{
    let x = magnitude(a as int);
    let d = magnitude(b as int);
    assert(0 <= x / d <= x && (d >= 2 ==> 2 * (x / d) <= x) && (d == 1 ==> x / d == x))
        by (nonlinear_arith)
        requires
            x >= 0,
            d >= 1,
    ;
}

/// `quotient` written with a single division, as the division of 64-bit
/// signed integers in executable code is known to the verifier: for a
/// dividend that is not negative it is `a / b`, and for a negative one it is
/// what `-a` gives, negated. On `int`, `/` rounds down for a positive divisor
/// and up for a negative one.
pub proof fn lemma_quotient_is_machine_division(a: i64, b: i64)
    requires
        b != 0,
    ensures
        a >= 0 ==> quotient(a as int, b as int) == a as int / b as int,
        a < 0 ==> quotient(a as int, b as int) == -((-a) / (b as int)),
{
    if b < 0 {
        lemma_negative_divisor(magnitude(a as int), magnitude(b as int));
    }
}

} // verus!
