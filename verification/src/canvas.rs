//! The report on a canvas: from a grid to the line that reports on it,
//! and what holds of that line.

use crate::decimal::digits;
use crate::opacity::{
    lemma_all_opaque, lemma_none_opaque, lemma_opaque_count_bounded, opaque_count, OPAQUE,
};
use crate::percent::{
    lemma_empty_area_is_zero_percent, lemma_full_area_is_hundred_percent, total_area,
};
use crate::raster::{calculate_area, is_exact_grid, pixmap_alphas, pixmap_extent, pixmap_size};
use crate::report::{report_line, report_text};
use tiny_skia::Pixmap;
use vstd::prelude::*;

verus! {

/// The report on a grid: [`report_text`] for its opaque pixels and its
/// extent.
pub open spec fn grid_report(pixmap: Pixmap, percentage: bool, square: bool) -> Seq<char> {
    report_text(
        opaque_count(pixmap_alphas(pixmap)),
        pixmap_extent(pixmap).0 as nat,
        pixmap_extent(pixmap).1 as nat,
        percentage,
        square,
    )
}

/// Whether `line` reports some count of opaque pixels on some canvas that
/// is at least one pixel wide and high and holds at least that many pixels.
pub open spec fn is_report(line: Seq<char>, percentage: bool, square: bool) -> bool {
    exists|count: nat, width: nat, height: nat|
        {
            &&& width >= 1
            &&& height >= 1
            &&& count <= width * height
            &&& line == #[trigger] report_text(count, width, height, percentage, square)
        }
}

/// The count of a canvas's opaque pixels lies between zero and the number of
/// its pixels.
pub proof fn lemma_count_within_canvas(alphas: Seq<u8>, width: nat, height: nat)
    requires
        alphas.len() == width * height,
    ensures
        0 <= opaque_count(alphas) <= width * height,
{
    lemma_opaque_count_bounded(alphas);
}

/// A canvas whose every pixel is fully opaque counts all of them, and
/// reports `100%`.
pub proof fn lemma_opaque_canvas_reports_hundred(alphas: Seq<u8>, width: nat, height: nat)
    requires
        width >= 1,
        height >= 1,
        alphas.len() == width * height,
        forall|i: int| 0 <= i < alphas.len() ==> alphas[i] == OPAQUE,
    ensures
        opaque_count(alphas) == width * height,
        report_text(opaque_count(alphas), width, height, true, false) == seq!['1', '0', '0', '%'],
{
    lemma_all_opaque(alphas);
    assert(width * height >= 1) by (nonlinear_arith)
        requires
            width >= 1,
            height >= 1,
    ;
    lemma_full_area_is_hundred_percent(width * height);
    reveal_with_fuel(digits, 4);
    assert(digits(100) =~= seq!['1', '0', '0']);
}

/// A canvas without a fully opaque pixel counts none, and reports `0%`, of
/// the canvas and of its bounding square alike.
pub proof fn lemma_transparent_canvas_reports_zero(
    alphas: Seq<u8>,
    width: nat,
    height: nat,
    square: bool,
)
    requires
        width >= 1,
        height >= 1,
        alphas.len() == width * height,
        forall|i: int| 0 <= i < alphas.len() ==> alphas[i] != OPAQUE,
    ensures
        opaque_count(alphas) == 0,
        report_text(opaque_count(alphas), width, height, false, square) == seq!['0'],
        report_text(opaque_count(alphas), width, height, true, square) == seq!['0', '%'],
{
    lemma_none_opaque(alphas);
    assert(total_area(width, height, square) >= 1) by (nonlinear_arith)
        requires
            width >= 1,
            height >= 1,
    ;
    lemma_empty_area_is_zero_percent(total_area(width, height, square));
}

/// The report on a grid is decided by the alpha values and the extent
/// alone: two grids that agree in both get the same report, whatever their
/// colours.
pub proof fn lemma_report_is_decided_by_alphas_and_extent(
    first: Pixmap,
    second: Pixmap,
    percentage: bool,
    square: bool,
)
    requires
        pixmap_alphas(first) == pixmap_alphas(second),
        pixmap_extent(first) == pixmap_extent(second),
    ensures
        opaque_count(pixmap_alphas(first)) == opaque_count(pixmap_alphas(second)),
        grid_report(first, percentage, square) == grid_report(second, percentage, square),
{
}

/// Counts the opaque pixels of a grid and formats the report on them.
///
/// A grid that holds more bytes than its extent needs may hold more opaque
/// pixels than its extent has places, and its share may exceed `100%`.
pub fn report_on_grid(pixmap: &Pixmap, percentage: bool, square: bool) -> (line: String)
    ensures
        line@ == grid_report(*pixmap, percentage, square),
        is_exact_grid(*pixmap) ==> is_report(line@, percentage, square),
{
    let (width, height): (u32, u32) = pixmap_size(pixmap);
    let area: u64 = calculate_area(pixmap);
    report_line(area, width, height, percentage, square)
}

} // verus!
