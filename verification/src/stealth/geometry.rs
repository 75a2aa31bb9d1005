//! Integer arithmetic for pointer paths: square roots, rounded ratios and the
//! easing curve.

use vstd::prelude::*;

verus! {

/// `root` is the integer square root of `n`, rounded down.
pub open spec fn is_floor_sqrt(n: int, root: int) -> bool {
    0 <= root && root * root <= n < (root + 1) * (root + 1)
}

/// The integer square root of `n`, rounded down.
pub open spec fn floor_sqrt(n: int) -> int {
    choose|root: int| is_floor_sqrt(n, root)
}

/// At most one number is the rounded-down square root of `n`.
pub proof fn lemma_floor_sqrt_unique(n: int, a: int, b: int)
    requires
        is_floor_sqrt(n, a),
        is_floor_sqrt(n, b),
    ensures
        a == b,
{
    if a < b {
        assert((a + 1) * (a + 1) <= b * b) by (nonlinear_arith)
            requires
                0 <= a + 1 <= b,
        ;
    } else if b < a {
        assert((b + 1) * (b + 1) <= a * a) by (nonlinear_arith)
            requires
                0 <= b + 1 <= a,
        ;
    }
}

/// Every natural number has a rounded-down square root.
pub proof fn lemma_floor_sqrt_exists(n: int)
    requires
        0 <= n,
    ensures
        is_floor_sqrt(n, floor_sqrt(n)),
    decreases n,
{
    if n == 0 {
        assert(is_floor_sqrt(0, 0));
    } else {
        lemma_floor_sqrt_exists(n - 1);
        let below = floor_sqrt(n - 1);
        if (below + 1) * (below + 1) <= n {
            assert((below + 1) * (below + 1) < (below + 2) * (below + 2)) by (nonlinear_arith)
                requires
                    0 <= below,
            ;
            assert(is_floor_sqrt(n, below + 1));
        } else {
            assert(is_floor_sqrt(n, below));
        }
    }
}

/// The rounded-down square root of `n` by bisection.
pub fn isqrt(n: u128) -> (root: u64)
    ensures
        is_floor_sqrt(n as int, root as int),
        root == floor_sqrt(n as int),
{
    let mut low: u128 = 0;
    let mut high: u128 = 0x1_0000_0000_0000_0000;
    assert(0x1_0000_0000_0000_0000int * 0x1_0000_0000_0000_0000int
        == 0x1_0000_0000_0000_0000_0000_0000_0000_0000int);
    while high - low > 1
        invariant
            low < high <= 0x1_0000_0000_0000_0000,
            low * low <= n < high * high,
        decreases high - low,
    {
        let middle: u128 = low + (high - low) / 2;
        assert(middle * middle <= 0xFFFF_FFFF_FFFF_FFFF * 0xFFFF_FFFF_FFFF_FFFF)
            by (nonlinear_arith)
            requires
                middle <= 0xFFFF_FFFF_FFFF_FFFF,
        ;
        if middle * middle <= n {
            low = middle;
        } else {
            high = middle;
        }
    }
    proof {
        lemma_floor_sqrt_exists(n as int);
        lemma_floor_sqrt_unique(n as int, low as int, floor_sqrt(n as int));
    }
    low as u64
}

/// `value * numerator / denominator`, rounded toward zero.
pub open spec fn scaled(value: int, numerator: int, denominator: int) -> int
    recommends
        0 <= numerator,
        0 < denominator,
{
    if value >= 0 {
        value * numerator / denominator
    } else {
        -((-value) * numerator / denominator)
    }
}

/// A ratio of at most one never lengthens a value, and keeps its sign.
pub proof fn lemma_scaled_within(value: int, numerator: int, denominator: int)
    requires
        0 <= numerator <= denominator,
        0 < denominator,
    ensures
        value >= 0 ==> 0 <= scaled(value, numerator, denominator) <= value,
        value <= 0 ==> value <= scaled(value, numerator, denominator) <= 0,
        numerator == 0 ==> scaled(value, numerator, denominator) == 0,
        numerator == denominator ==> scaled(value, numerator, denominator) == value,
{
    let magnitude = if value >= 0 { value } else { -value };
    let quotient = magnitude * numerator / denominator;
    assert(0 <= magnitude * numerator <= magnitude * denominator) by (nonlinear_arith)
        requires
            0 <= magnitude,
            0 <= numerator <= denominator,
    ;
    vstd::arithmetic::div_mod::lemma_div_pos_is_pos(magnitude * numerator, denominator);
    vstd::arithmetic::div_mod::lemma_div_is_ordered(
        magnitude * numerator,
        magnitude * denominator,
        denominator,
    );
    vstd::arithmetic::div_mod::lemma_div_multiples_vanish(magnitude, denominator);
    assert(magnitude * denominator == denominator * magnitude) by (nonlinear_arith);
    if numerator == 0 {
        assert(magnitude * numerator == 0) by (nonlinear_arith)
            requires
                numerator == 0,
        ;
    }
}

/// The magnitude of a scaled value is that of the value, scaled.
pub proof fn lemma_scaled_bound(value: int, numerator: int, denominator: int, limit: int)
    requires
        0 <= numerator,
        0 < denominator,
        -limit <= value <= limit,
    ensures
        -(limit * numerator / denominator) <= scaled(value, numerator, denominator) <= limit
            * numerator / denominator,
{
    let magnitude = if value >= 0 { value } else { -value };
    assert(0 <= magnitude * numerator <= limit * numerator) by (nonlinear_arith)
        requires
            0 <= magnitude <= limit,
            0 <= numerator,
    ;
    vstd::arithmetic::div_mod::lemma_div_pos_is_pos(magnitude * numerator, denominator);
    vstd::arithmetic::div_mod::lemma_div_is_ordered(
        magnitude * numerator,
        limit * numerator,
        denominator,
    );
}

/// `value * numerator / denominator`, rounded toward zero.
pub fn scale(value: i64, numerator: u64, denominator: u64) -> (result: i128)
    requires
        0 < denominator,
    ensures
        result == scaled(value as int, numerator as int, denominator as int),
{
    if value >= 0 {
        assert(value * numerator <= 0x7FFF_FFFF_FFFF_FFFF * 0xFFFF_FFFF_FFFF_FFFF)
            by (nonlinear_arith)
            requires
                0 <= value <= 0x7FFF_FFFF_FFFF_FFFF,
                numerator <= 0xFFFF_FFFF_FFFF_FFFF,
        ;
        let product: u128 = (value as u128) * (numerator as u128);
        (product / (denominator as u128)) as i128
    } else {
        let magnitude: u128 = (-(value as i128)) as u128;
        assert(magnitude * numerator <= 0x8000_0000_0000_0000 * 0xFFFF_FFFF_FFFF_FFFF)
            by (nonlinear_arith)
            requires
                magnitude <= 0x8000_0000_0000_0000,
                numerator <= 0xFFFF_FFFF_FFFF_FFFF,
        ;
        let product: u128 = magnitude * (numerator as u128);
        -((product / (denominator as u128)) as i128)
    }
}

/// The eased progress at step `i` of `n`, as a numerator over `n * n`:
/// accelerating as `2 t^2` in the first half of the way, decelerating as
/// `1 - (2 - 2 t)^2 / 2` in the second, where `t = i / n`.
pub open spec fn eased_numerator(i: int, n: int) -> int {
    if 2 * i < n {
        2 * i * i
    } else {
        n * n - 2 * (n - i) * (n - i)
    }
}

/// Eased progress starts at zero, ends at one and never leaves that range.
pub proof fn lemma_eased_range(i: int, n: int)
    requires
        0 <= i <= n,
    ensures
        0 <= eased_numerator(i, n) <= n * n,
        n > 0 ==> eased_numerator(0, n) == 0,
        eased_numerator(n, n) == n * n,
{
    if 2 * i < n {
        assert(0 <= 2 * i * i <= n * n) by (nonlinear_arith)
            requires
                0 <= i,
                2 * i < n,
        ;
    } else {
        assert(0 <= 2 * (n - i) * (n - i) <= n * n) by (nonlinear_arith)
            requires
                0 <= n - i,
                2 * (n - i) <= n,
        ;
    }
    assert(2 * (n - n) * (n - n) == 0);
    assert(2 * 0 * 0 == 0);
}

/// Eased progress never goes backward.
pub proof fn lemma_eased_monotone(i: int, j: int, n: int)
    requires
        0 <= i <= j <= n,
    ensures
        eased_numerator(i, n) <= eased_numerator(j, n),
{
    if 2 * j < n {
        assert(2 * i * i <= 2 * j * j) by (nonlinear_arith)
            requires
                0 <= i <= j,
        ;
    } else if 2 * i >= n {
        assert(2 * (n - j) * (n - j) <= 2 * (n - i) * (n - i)) by (nonlinear_arith)
            requires
                0 <= n - j <= n - i,
        ;
    } else {
        assert(2 * i * i + 2 * (n - j) * (n - j) <= n * n) by (nonlinear_arith)
            requires
                0 <= i,
                2 * i < n,
                0 <= n - j,
                2 * (n - j) <= n,
        ;
    }
}

/// A greater ratio scales a value further from zero, never nearer.
pub proof fn lemma_scaled_monotone(value: int, lesser: int, greater: int, denominator: int)
    requires
        0 <= lesser <= greater,
        0 < denominator,
    ensures
        value >= 0 ==> scaled(value, lesser, denominator) <= scaled(value, greater, denominator),
        value <= 0 ==> scaled(value, lesser, denominator) >= scaled(value, greater, denominator),
{
    let magnitude = if value >= 0 { value } else { -value };
    assert(magnitude * lesser <= magnitude * greater) by (nonlinear_arith)
        requires
            0 <= magnitude,
            0 <= lesser <= greater,
    ;
    vstd::arithmetic::div_mod::lemma_div_is_ordered(
        magnitude * lesser,
        magnitude * greater,
        denominator,
    );
}

/// The eased progress at step `i` of `n`, as a numerator over `n * n`.
pub fn eased(i: u32, n: u32) -> (numerator: u64)
    requires
        i <= n,
    ensures
        numerator == eased_numerator(i as int, n as int),
        numerator <= n * n,
{
    proof {
        lemma_eased_range(i as int, n as int);
        assert(n * n <= 0xFFFF_FFFF * 0xFFFF_FFFF) by (nonlinear_arith)
            requires
                n <= 0xFFFF_FFFF,
        ;
        assert(i * i <= n * n) by (nonlinear_arith)
            requires
                0 <= i <= n,
        ;
        assert((n - i) * (n - i) <= n * n) by (nonlinear_arith)
            requires
                0 <= n - i <= n,
        ;
    }
    let step: u64 = i as u64;
    let count: u64 = n as u64;
    if 2 * step < count {
        assert(2 * i * i == 2 * (i * i)) by (nonlinear_arith);
        2 * (step * step)
    } else {
        let left: u64 = count - step;
        assert(2 * (n - i) * (n - i) == 2 * ((n - i) * (n - i))) by (nonlinear_arith);
        count * count - 2 * (left * left)
    }
}

} // verus!
