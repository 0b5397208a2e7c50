//! The share of a canvas that a pixel count covers, as a whole percentage.

use vstd::arithmetic::div_mod::{lemma_fundamental_div_mod, lemma_fundamental_div_mod_converse};
use vstd::prelude::*;

verus! {

/// The area that a percentage is taken of: the canvas itself, or the square
/// whose side is the longer of the canvas's two sides.
pub open spec fn total_area(width: nat, height: nat, square: bool) -> nat {
    if square {
        let side: nat = if width >= height { width } else { height };
        side * side
    } else {
        width * height
    }
}

/// Twice the distance between `100 * count` and `percent * total`.
pub open spec fn double_gap(count: nat, total: nat, percent: nat) -> int {
    let gap: int = 100 * count - percent * total;
    if gap >= 0 { 2 * gap } else { -2 * gap }
}

/// `percent` is a whole number nearest to `100 * count / total`, and the even
/// one where two whole numbers are equally near.
pub open spec fn is_nearest_percent(count: nat, total: nat, percent: nat) -> bool {
    &&& double_gap(count, total, percent) <= total
    &&& double_gap(count, total, percent) == total ==> percent % 2 == 0
}

/// `100 * count / total`, rounded to the nearest whole number; a value that
/// lies exactly halfway between two whole numbers goes to the even one.
pub open spec fn rounded_percent(count: nat, total: nat) -> nat
    recommends
        total > 0,
{
    let scaled: nat = 100 * count;
    let floor: nat = scaled / total;
    let rest: nat = scaled % total;
    if 2 * rest > total || (2 * rest == total && floor % 2 == 1) {
        floor + 1
    } else {
        floor
    }
}

/// The rounded percentage is a nearest whole number, and the even one on a tie.
pub proof fn lemma_rounded_percent_is_nearest(count: nat, total: nat)
    requires
        total > 0,
    ensures
        is_nearest_percent(count, total, rounded_percent(count, total)),
{
    let scaled: int = (100 * count) as int;
    let floor: int = scaled / (total as int);
    lemma_fundamental_div_mod(scaled, total as int);
    assert((floor + 1) * total == floor * total + total) by (nonlinear_arith);
    assert(total * floor == floor * total) by (nonlinear_arith);
}

/// Only one whole number is nearest in that sense: whatever satisfies
/// `is_nearest_percent` is the rounded percentage.
pub proof fn lemma_nearest_percent_is_unique(count: nat, total: nat, percent: nat)
    requires
        total > 0,
        is_nearest_percent(count, total, percent),
    ensures
        percent == rounded_percent(count, total),
{
    let found: nat = rounded_percent(count, total);
    lemma_rounded_percent_is_nearest(count, total);
    let t: int = total as int;
    let a: int = percent as int;
    let b: int = found as int;
    // Both lie within half a step of the value, so they are at most one
    // step apart; one step apart, each would lie exactly halfway and both
    // would have to be even.
    if a > b {
        assert(a * t - b * t == (a - b) * t) by (nonlinear_arith);
        assert((a - b) * t <= t);
        assert(a - b == 1) by (nonlinear_arith)
            requires
                (a - b) * t <= t,
                t > 0,
                a > b,
        ;
    } else if b > a {
        assert(b * t - a * t == (b - a) * t) by (nonlinear_arith);
        assert((b - a) * t <= t);
        assert(b - a == 1) by (nonlinear_arith)
            requires
                (b - a) * t <= t,
                t > 0,
                b > a,
        ;
    }
}

/// A count that covers the whole area is 100 percent of it.
pub proof fn lemma_full_area_is_hundred_percent(total: nat)
    requires
        total > 0,
    ensures
        rounded_percent(total, total) == 100,
{
    lemma_fundamental_div_mod_converse((100 * total) as int, total as int, 100, 0);
}

/// A count of zero is 0 percent of any area.
pub proof fn lemma_empty_area_is_zero_percent(total: nat)
    requires
        total > 0,
    ensures
        rounded_percent(0, total) == 0,
{
    lemma_fundamental_div_mod_converse(0, total as int, 0, 0);
}

/// A count within the area is at most 100 percent of it.
pub proof fn lemma_percent_at_most_hundred(count: nat, total: nat)
    requires
        total > 0,
        count <= total,
    ensures
        rounded_percent(count, total) <= 100,
{
    let percent: nat = rounded_percent(count, total);
    lemma_rounded_percent_is_nearest(count, total);
    if percent >= 101 {
        assert(percent * total >= 101 * total) by (nonlinear_arith)
            requires percent >= 101, total > 0;
    }
}

/// The bounding square is at least as large as the canvas.
pub proof fn lemma_square_covers_canvas(width: nat, height: nat)
    ensures
        total_area(width, height, false) <= total_area(width, height, true),
{
    if width >= height {
        assert(width * height <= width * width) by (nonlinear_arith)
            requires height <= width;
    } else {
        assert(width * height <= height * height) by (nonlinear_arith)
            requires width <= height;
    }
}

/// Computes [`total_area`].
pub fn canvas_area(width: u32, height: u32, square: bool) -> (area: u64)
    ensures
        area == total_area(width as nat, height as nat, square),
{
    let (a, b): (u64, u64) = if !square {
        (width as u64, height as u64)
    } else if width >= height {
        (width as u64, width as u64)
    } else {
        (height as u64, height as u64)
    };
    assert(a * b <= 0xffff_ffff * 0xffff_ffff) by (nonlinear_arith)
        requires a <= 0xffff_ffff, b <= 0xffff_ffff;
    a * b
}

/// Computes [`rounded_percent`].
pub fn percent_of(count: u64, total: u64) -> (percent: u128)
    requires
        total > 0,
    ensures
        percent == rounded_percent(count as nat, total as nat),
{
    let scaled: u128 = 100 * (count as u128);
    let whole: u128 = scaled / (total as u128);
    let rest: u128 = scaled % (total as u128);
    if 2 * rest > total as u128 || (2 * rest == total as u128 && whole % 2 == 1) {
        whole + 1
    } else {
        whole
    }
}

} // verus!
