//! Saturating arithmetic, integer square roots, and uniform range mapping.
//!
//! Health and food are `i32` quantities updated with saturating arithmetic;
//! spatial quantities are `i64` fixed-point values in milli-units. The
//! helpers here give those operations exact specifications.

use vstd::prelude::*;

verus! {

/// Saturating `i32` addition, as a mathematical function.
pub open spec fn sat_add_i32_spec(a: int, b: int) -> int {
    if a + b > i32::MAX {
        i32::MAX as int
    } else if a + b < i32::MIN {
        i32::MIN as int
    } else {
        a + b
    }
}

/// Saturating `i32` subtraction, as a mathematical function.
pub open spec fn sat_sub_i32_spec(a: int, b: int) -> int {
    if a - b > i32::MAX {
        i32::MAX as int
    } else if a - b < i32::MIN {
        i32::MIN as int
    } else {
        a - b
    }
}

/// Saturating `i64` addition, as a mathematical function.
pub open spec fn sat_add_i64_spec(a: int, b: int) -> int {
    if a + b > i64::MAX {
        i64::MAX as int
    } else if a + b < i64::MIN {
        i64::MIN as int
    } else {
        a + b
    }
}

/// Saturating `i64` subtraction, as a mathematical function.
pub open spec fn sat_sub_i64_spec(a: int, b: int) -> int {
    if a - b > i64::MAX {
        i64::MAX as int
    } else if a - b < i64::MIN {
        i64::MIN as int
    } else {
        a - b
    }
}

pub fn sat_add_i32(a: i32, b: i32) -> (r: i32)
    ensures
        r == sat_add_i32_spec(a as int, b as int),
{
    match a.checked_add(b) {
        Some(v) => v,
        None => if b > 0 {
            i32::MAX
        } else {
            i32::MIN
        },
    }
}

pub fn sat_sub_i32(a: i32, b: i32) -> (r: i32)
    ensures
        r == sat_sub_i32_spec(a as int, b as int),
{
    match a.checked_sub(b) {
        Some(v) => v,
        None => if b < 0 {
            i32::MAX
        } else {
            i32::MIN
        },
    }
}

pub fn sat_add_i64(a: i64, b: i64) -> (r: i64)
    ensures
        r == sat_add_i64_spec(a as int, b as int),
{
    match a.checked_add(b) {
        Some(v) => v,
        None => if b > 0 {
            i64::MAX
        } else {
            i64::MIN
        },
    }
}

pub fn sat_sub_i64(a: i64, b: i64) -> (r: i64)
    ensures
        r == sat_sub_i64_spec(a as int, b as int),
{
    match a.checked_sub(b) {
        Some(v) => v,
        None => if b < 0 {
            i64::MAX
        } else {
            i64::MIN
        },
    }
}

/// `m` is the least integer whose square reaches `n`.
pub open spec fn is_sqrt_up(n: int, m: int) -> bool {
    &&& 0 <= m
    &&& m * m >= n
    &&& m == 0 || (m - 1) * (m - 1) < n
}

/// Rounded-up integer square root: the least `r` with `r * r >= n`.
pub fn isqrt_up(n: u128) -> (r: u128)
    ensures
        is_sqrt_up(n as int, r as int),
{
    if n == 0 {
        return 0;
    }
    let mut lo: u128 = 0;
    let mut hi: u128 = 0x1_0000_0000_0000_0000;
    proof {
        assert((hi as int) * (hi as int) >= n as int) by (nonlinear_arith)
            requires
                hi == 0x1_0000_0000_0000_0000u128,
                n <= u128::MAX,
        ;
    }
    while lo + 1 < hi
        invariant
            lo < hi <= 0x1_0000_0000_0000_0000u128,
            (lo as int) * (lo as int) < n as int,
            (hi as int) * (hi as int) >= n as int,
            n > 0,
        decreases hi - lo,
    {
        let mid: u128 = lo + (hi - lo) / 2;
        proof {
            assert((mid as int) * (mid as int) < 0x1_0000_0000_0000_0000_0000_0000_0000_0000int)
                by (nonlinear_arith)
                requires
                    mid < 0x1_0000_0000_0000_0000u128,
            ;
        }
        if mid * mid >= n {
            hi = mid;
        } else {
            lo = mid;
        }
    }
    hi
}

/// The least square root is unique.
pub proof fn lemma_sqrt_up_unique(n: int, m1: int, m2: int)
    requires
        is_sqrt_up(n, m1),
        is_sqrt_up(n, m2),
    ensures
        m1 == m2,
{
    if m1 < m2 {
        assert(m1 * m1 >= n);
        assert((m2 - 1) * (m2 - 1) < n);
        assert(m1 * m1 <= (m2 - 1) * (m2 - 1)) by (nonlinear_arith)
            requires
                0 <= m1,
                m1 <= m2 - 1,
        ;
    }
    if m2 < m1 {
        assert(m2 * m2 <= (m1 - 1) * (m1 - 1)) by (nonlinear_arith)
            requires
                0 <= m2,
                m2 <= m1 - 1,
        ;
    }
}

/// The unique rounded-up integer square root, as a mathematical value.
pub open spec fn sqrt_up_val(n: int) -> int {
    choose|m: int| is_sqrt_up(n, m)
}

/// Every nonnegative integer has a rounded-up square root.
pub proof fn lemma_sqrt_up_exists(n: int)
    requires
        n >= 0,
    ensures
        is_sqrt_up(n, sqrt_up_val(n)),
    decreases n,
{
    if n == 0 {
        assert(is_sqrt_up(0, 0));
    } else {
        lemma_sqrt_up_exists(n - 1);
        let m = sqrt_up_val(n - 1);
        if m * m >= n {
            assert(is_sqrt_up(n, m));
        } else {
            assert(m * m == n - 1);
            assert((m + 1) * (m + 1) >= n && m * m < n) by (nonlinear_arith)
                requires
                    m * m == n - 1,
                    m >= 0,
            ;
            assert(is_sqrt_up(n, m + 1));
        }
        assert(exists|w: int| is_sqrt_up(n, w));
    }
}

/// `min + floor((max - min) * draw / 2^32)`: maps a uniform 32-bit draw into
/// the closed-from-below range `[min, max]`; the top end is reached only when
/// the range is empty.
pub fn lerp_u32(min: i64, max: i64, draw: u32) -> (r: i64)
    requires
        min <= max,
    ensures
        min <= r <= max,
        min < max ==> r < max,
        r == min + (max - min) * (draw as int) / 0x1_0000_0000,
{
    let d: i128 = max as i128 - min as i128;
    proof {
        assert(d * (draw as int) <= u64::MAX * u32::MAX) by (nonlinear_arith)
            requires
                0 <= d <= u64::MAX,
                draw <= u32::MAX,
        ;
    }
    let q: u128 = (d as u128) * (draw as u128) / 0x1_0000_0000u128;
    proof {
        assert(q <= d && (d > 0 ==> q < d)) by (nonlinear_arith)
            requires
                q == d * (draw as int) / 0x1_0000_0000,
                0 <= d <= u64::MAX,
                draw <= u32::MAX,
        ;
    }
    (min as i128 + q as i128) as i64
}

/// `min + floor((max - min) * draw / 255)`: maps a uniform byte into the
/// closed range `[min, max]`; byte 255 lands exactly on `max`.
pub fn lerp_u8(min: i64, max: i64, draw: u8) -> (r: i64)
    requires
        min <= max,
    ensures
        min <= r <= max,
        r == min + (max - min) * (draw as int) / 255,
{
    let d: i128 = max as i128 - min as i128;
    proof {
        assert(d * (draw as int) <= u64::MAX * 255) by (nonlinear_arith)
            requires
                0 <= d <= u64::MAX,
                draw <= 255u8,
        ;
    }
    let q: u128 = (d as u128) * (draw as u128) / 255u128;
    proof {
        assert(q <= d) by (nonlinear_arith)
            requires
                q == d * (draw as int) / 255,
                0 <= d <= u64::MAX,
                draw <= 255u8,
        ;
    }
    (min as i128 + q as i128) as i64
}

} // verus!
