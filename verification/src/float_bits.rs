use vstd::prelude::*;

verus! {

/// Bit of an IEEE 754 single-precision pattern that holds the sign.
pub const SIGN_BIT: u32 = 0x8000_0000;

/// Largest magnitude (the pattern without its sign) of an infinity; any
/// larger one is a NaN.
pub const INFINITY_MAGNITUDE: u32 = 0x7f80_0000;

/// The pattern without its sign bit.
pub open spec fn magnitude(bits: u32) -> int {
    if bits < SIGN_BIT {
        bits as int
    } else {
        bits - SIGN_BIT
    }
}

/// The pattern is a NaN.
pub open spec fn is_nan(bits: u32) -> bool {
    magnitude(bits) > INFINITY_MAGNITUDE
}

/// Place of a single-precision pattern in the IEEE 754 total order: all
/// negative patterns, the largest magnitude first, before all positive
/// ones, the smallest magnitude first. So -0 comes just before +0, and
/// negative and positive NaNs lie beyond the infinities.
pub open spec fn total_rank(bits: u32) -> int {
    if bits < SIGN_BIT {
        bits as int
    } else {
        -1 - magnitude(bits)
    }
}

/// IEEE 754 `a > b` on single-precision patterns: false when either is a
/// NaN; otherwise the total order, except that -0 and +0 are equal.
pub open spec fn float_gt(a: u32, b: u32) -> bool {
    &&& !is_nan(a)
    &&& !is_nan(b)
    &&& total_rank(a) > total_rank(b)
    &&& !(magnitude(a) == 0 && magnitude(b) == 0)
}

/// The key under which `i32` comparison follows the IEEE 754 total order
/// of single-precision patterns.
pub fn total_key(bits: u32) -> (key: i32)
    ensures
        key == total_rank(bits),
{
    if bits < SIGN_BIT {
        bits as i32
    } else {
        -1 - ((bits - SIGN_BIT) as i32)
    }
}

/// IEEE 754 `a > b` on single-precision patterns.
pub fn gt(a: u32, b: u32) -> (r: bool)
    ensures
        r == float_gt(a, b),
{
    let ma = if a < SIGN_BIT { a } else { a - SIGN_BIT };
    let mb = if b < SIGN_BIT { b } else { b - SIGN_BIT };
    if ma > INFINITY_MAGNITUDE || mb > INFINITY_MAGNITUDE {
        return false;
    }
    if ma == 0 && mb == 0 {
        return false;
    }
    total_key(a) > total_key(b)
}

/// Different patterns have different places in the total order.
pub proof fn lemma_total_rank_injective(a: u32, b: u32)
    requires
        a != b,
    ensures
        total_rank(a) != total_rank(b),
{
}

/// `>` on patterns that are no NaN is a strict order: it never holds
/// both ways, and it chains.
pub proof fn lemma_gt_strict_order(a: u32, b: u32, c: u32)
    ensures
        !(float_gt(a, b) && float_gt(b, a)),
        float_gt(a, b) && float_gt(b, c) ==> float_gt(a, c),
{
}

/// The total order follows the values: among non-negative patterns, a
/// larger pattern is a larger number and ranks higher; among negative
/// patterns, a larger magnitude is a smaller number and ranks lower; and
/// every negative pattern ranks below every non-negative one.
pub proof fn lemma_total_rank_follows_values(a: u32, b: u32)
    ensures
        a < b < SIGN_BIT ==> total_rank(a) < total_rank(b),
        SIGN_BIT <= a < b ==> total_rank(a) > total_rank(b),
        a < SIGN_BIT <= b ==> total_rank(b) < total_rank(a),
        a < SIGN_BIT ==> total_rank(a) >= 0,
        b >= SIGN_BIT ==> total_rank(b) < 0,
{
}

/// `>` follows the values: of two non-negative patterns that are no NaN
/// and not both zero, the larger pattern is the greater number, and of two
/// negative ones the smaller pattern.
pub proof fn lemma_gt_follows_values(a: u32, b: u32)
    ensures
        a < b < SIGN_BIT && !is_nan(b) && b != 0 ==> float_gt(b, a) && !float_gt(a, b),
        SIGN_BIT <= a < b && !is_nan(b) && a != SIGN_BIT ==> float_gt(a, b) && !float_gt(b, a),
        a < SIGN_BIT && SIGN_BIT <= b && !is_nan(a) && !is_nan(b) && !(a == 0 && b == SIGN_BIT)
            ==> float_gt(a, b),
{
}

} // verus!
