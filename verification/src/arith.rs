//! Integer helpers shared by the playback and streaming logic.

use vstd::prelude::*;

verus! {

/// The smaller of two integers.
pub open spec fn int_min(a: int, b: int) -> int {
    if a <= b {
        a
    } else {
        b
    }
}

/// The larger of two integers.
pub open spec fn int_max(a: int, b: int) -> int {
    if a >= b {
        a
    } else {
        b
    }
}

/// `n` held inside the closed range from `low` to `high`.
pub open spec fn int_clamp(n: int, low: int, high: int) -> int {
    int_max(low, int_min(n, high))
}

pub fn min_u64(a: u64, b: u64) -> (r: u64)
    ensures
        r == int_min(a as int, b as int),
{
    if a <= b {
        a
    } else {
        b
    }
}

pub fn min_usize(a: usize, b: usize) -> (r: usize)
    ensures
        r == int_min(a as int, b as int),
{
    if a <= b {
        a
    } else {
        b
    }
}

pub fn min_i32(a: i32, b: i32) -> (r: i32)
    ensures
        r == int_min(a as int, b as int),
{
    if a <= b {
        a
    } else {
        b
    }
}

/// A signed size or count read as unsigned, negative values counting as zero.
pub fn non_negative(n: i64) -> (r: u64)
    ensures
        r == int_max(0, n as int),
{
    if n < 0 {
        0
    } else {
        n as u64
    }
}

/// Multiplication that stops at the largest `u64`.
pub fn saturating_product(a: u64, b: u64) -> (r: u64)
    ensures
        r == int_min(a * b, u64::MAX as int),
{
    match a.checked_mul(b) {
        Some(product) => product,
        None => u64::MAX,
    }
}

/// Addition that stops at either end of the `i32` range.
pub fn saturating_sum_i32(a: i32, b: i32) -> (r: i32)
    ensures
        r == int_clamp(a + b, i32::MIN as int, i32::MAX as int),
{
    match a.checked_add(b) {
        Some(sum) => sum,
        None => if b < 0 {
            i32::MIN
        } else {
            i32::MAX
        },
    }
}

/// Subtraction that stops at either end of the `i32` range.
pub fn saturating_difference_i32(a: i32, b: i32) -> (r: i32)
    ensures
        r == int_clamp(a - b, i32::MIN as int, i32::MAX as int),
{
    match a.checked_sub(b) {
        Some(difference) => difference,
        None => if b < 0 {
            i32::MAX
        } else {
            i32::MIN
        },
    }
}

/// Addition that stops at either end of the `i64` range.
pub fn saturating_sum_i64(a: i64, b: i64) -> (r: i64)
    ensures
        r == int_clamp(a + b, i64::MIN as int, i64::MAX as int),
{
    match a.checked_add(b) {
        Some(sum) => sum,
        None => if b < 0 {
            i64::MIN
        } else {
            i64::MAX
        },
    }
}

/// The number of the piece that holds global byte `position`, cut to the low
/// 32 bits of the quotient.
pub open spec fn piece_index(position: int, piece_length: int) -> i32 {
    (position / piece_length) as i32
}

/// The piece that holds byte `position` of the torrent. Native piece numbers
/// are 32 bits wide, so quotients above that range wrap.
pub fn piece_at(position: u64, piece_length: u64) -> (r: i32)
    requires
        piece_length > 0,
    ensures
        r == piece_index(position as int, piece_length as int),
        position as int / piece_length as int <= i32::MAX ==> r == position as int
            / piece_length as int,
{
    (position / piece_length) as i32
}

/// The bounds do what their names say: of two integers one is picked, and none
/// is smaller or larger; what lies inside a range stays, and what lies outside
/// goes to the nearer end.
pub proof fn law_bounds_hold(a: int, b: int, low: int, high: int)
    requires
        low <= high,
    ensures
        int_min(a, b) <= a,
        int_min(a, b) <= b,
        int_min(a, b) == a || int_min(a, b) == b,
        int_max(a, b) >= a,
        int_max(a, b) >= b,
        int_max(a, b) == a || int_max(a, b) == b,
        low <= int_clamp(a, low, high) <= high,
        low <= a <= high ==> int_clamp(a, low, high) == a,
        a < low ==> int_clamp(a, low, high) == low,
        a > high ==> int_clamp(a, low, high) == high,
{
}

/// A position lies in its piece: at or behind where the piece starts, and before
/// where the next one does.
pub proof fn law_piece_holds_its_position(position: int, piece_length: int)
    requires
        0 <= position < piece_length * 0x8000_0000,
        0 < piece_length,
    ensures
        0 <= piece_index(position, piece_length),
        piece_index(position, piece_length) * piece_length <= position,
        position < (piece_index(position, piece_length) + 1) * piece_length,
{
    let quotient = position / piece_length;
    vstd::arithmetic::div_mod::lemma_fundamental_div_mod(position, piece_length);
    vstd::arithmetic::div_mod::lemma_mod_bound(position, piece_length);
    vstd::arithmetic::div_mod::lemma_div_pos_is_pos(position, piece_length);
    assert(quotient < 0x8000_0000 && quotient * piece_length <= position < (quotient + 1)
        * piece_length) by (nonlinear_arith)
        requires
            0 < piece_length,
            0 <= quotient,
            position == piece_length * quotient + position % piece_length,
            0 <= position % piece_length < piece_length,
            position < piece_length * 0x8000_0000,
    ;
}

/// The smaller of two is taken, and what does not fit ends at the bound that it
/// passes.
pub proof fn law_arithmetic_ends_at_the_bounds(
    a: u64,
    b: u64,
    smaller: u64,
    product: u64,
    m: i32,
    n: i32,
    sum: i32,
    difference: i32,
    signed: i64,
    cut: u64,
)
    requires
        call_ensures(min_u64, (a, b), smaller),
        call_ensures(saturating_product, (a, b), product),
        call_ensures(saturating_sum_i32, (m, n), sum),
        call_ensures(saturating_difference_i32, (m, n), difference),
        call_ensures(non_negative, (signed,), cut),
    ensures
        smaller <= a && smaller <= b && (smaller == a || smaller == b),
        a * b <= u64::MAX ==> product == a * b,
        a * b > u64::MAX ==> product == u64::MAX,
        i32::MIN <= m + n <= i32::MAX ==> sum == m + n,
        m + n > i32::MAX ==> sum == i32::MAX,
        m + n < i32::MIN ==> sum == i32::MIN,
        i32::MIN <= m - n <= i32::MAX ==> difference == m - n,
        m - n > i32::MAX ==> difference == i32::MAX,
        m - n < i32::MIN ==> difference == i32::MIN,
        signed >= 0 ==> cut == signed,
        signed < 0 ==> cut == 0,
{
}

/// The piece at a position is the one that holds it.
pub proof fn law_piece_at_holds_the_position(position: u64, piece_length: u64, r: i32)
    requires
        call_ensures(piece_at, (position, piece_length), r),
        0 < piece_length,
        position < piece_length * 0x8000_0000,
    ensures
        r * piece_length <= position < (r + 1) * piece_length,
{
    law_piece_holds_its_position(position as int, piece_length as int);
}

} // verus!
