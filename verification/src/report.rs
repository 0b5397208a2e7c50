//! The one line that reports an opaque-pixel count.

use crate::decimal::{decimal, decimal_string};
use crate::percent::{canvas_area, percent_of, rounded_percent, total_area};
use vstd::prelude::*;
use vstd::string::StringExecFns;

verus! {

/// The report for `count` opaque pixels on a canvas of `width` by `height`:
/// the count itself, or, where `percentage` is set, its rounded share of the
/// canvas (of the bounding square where `square` is set too) followed by `%`.
/// `square` alone changes nothing.
pub open spec fn report_text(
    count: nat,
    width: nat,
    height: nat,
    percentage: bool,
    square: bool,
) -> Seq<char> {
    if percentage {
        decimal(rounded_percent(count, total_area(width, height, square))).push('%')
    } else {
        decimal(count)
    }
}

/// Formats the report line, without a line break.
///
/// A share is rounded to the nearest whole percent, and to the even one
/// where it lies exactly halfway: 12.5 gives `12%`, 13.5 gives `14%`.
pub fn report_line(
    count: u64,
    width: u32,
    height: u32,
    percentage: bool,
    square: bool,
) -> (line: String)
    requires
        percentage ==> width > 0 && height > 0,
    ensures
        line@ == report_text(count as nat, width as nat, height as nat, percentage, square),
{
    if percentage {
        let area: u64 = canvas_area(width, height, square);
        assert(area > 0) by (nonlinear_arith)
            requires
                area == total_area(width as nat, height as nat, square),
                width > 0,
                height > 0,
        ;
        let mut line: String = decimal_string(percent_of(count, area));
        proof {
            reveal_strlit("%");
        }
        line.append("%");
        assert(line@ =~= report_text(
            count as nat,
            width as nat,
            height as nat,
            percentage,
            square,
        ));
        line
    } else {
        decimal_string(count as u128)
    }
}

} // verus!
