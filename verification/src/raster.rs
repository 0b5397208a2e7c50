//! The document tree and the pixel grid, as the SVG parser and the
//! rasterizer provide them: the grid that a document is rendered onto, and
//! the opaque pixels on a grid.
//!
//! Parsing and rendering themselves are not done here. Both can panic on
//! documents that no test on plain values tells from the others, so the
//! caller makes these two calls, between the functions of this module.

use crate::error::{ParseFailure, ReportError};
use crate::opacity::{lemma_none_opaque, lemma_opaque_count_step, opaque_count, OPAQUE};
use tiny_skia::Pixmap;
use usvg::Tree;
use vstd::prelude::*;

verus! {

/// A parsed SVG document.
#[verifier::external_type_specification]
#[verifier::external_body]
pub struct ExTree(usvg::Tree);

/// A grid of premultiplied RGBA pixels.
#[verifier::external_type_specification]
#[verifier::external_body]
pub struct ExPixmap(tiny_skia::Pixmap);

/// The bytes that a grid holds: red, green, blue and alpha of each pixel,
/// row by row.
pub uninterp spec fn pixmap_bytes(pixmap: Pixmap) -> Seq<u8>;

/// The width and the height of a grid, in pixels.
pub uninterp spec fn pixmap_extent(pixmap: Pixmap) -> (u32, u32);

/// The width and the height of a document, in whole pixels.
pub uninterp spec fn tree_extent(tree: Tree) -> (u32, u32);

/// The alpha values among a grid's bytes: the fourth byte of every full
/// group of four. Bytes beyond the last full group belong to no pixel.
pub open spec fn alphas_of(bytes: Seq<u8>) -> Seq<u8> {
    Seq::new((bytes.len() / 4) as nat, |i: int| bytes[4 * i + 3])
}

/// The alpha value of each pixel of a grid, row by row.
pub open spec fn pixmap_alphas(pixmap: Pixmap) -> Seq<u8> {
    alphas_of(pixmap_bytes(pixmap))
}

/// Whether a grid holds the bytes of its extent and no more: four for each
/// of its `width * height` pixels. A grid that was made from a longer
/// buffer holds more.
pub open spec fn is_exact_grid(pixmap: Pixmap) -> bool {
    pixmap_bytes(pixmap).len() == 4 * pixmap_extent(pixmap).0 * pixmap_extent(pixmap).1
}

/// An exact grid has one alpha value for each place in its extent.
pub proof fn lemma_exact_grid_has_a_pixel_per_place(pixmap: Pixmap)
    requires
        is_exact_grid(pixmap),
    ensures
        pixmap_alphas(pixmap).len() == pixmap_extent(pixmap).0 * pixmap_extent(pixmap).1,
{
    let places: int = pixmap_extent(pixmap).0 * pixmap_extent(pixmap).1;
    assert(4 * pixmap_extent(pixmap).0 * pixmap_extent(pixmap).1 == 4 * places)
        by (nonlinear_arith)
        requires
            places == pixmap_extent(pixmap).0 * pixmap_extent(pixmap).1,
    ;
}

/// The longest side that can be rendered: the renderer takes four times
/// each side of its grid as an `i32`.
pub const MAX_SIDE: u32 = 0x1fff_ffff;

/// Whether a grid of this extent can be held: both sides are at least one
/// pixel, a row is no longer than [`MAX_SIDE`], and the whole grid, at four
/// bytes a pixel, takes no more bytes than one allocation can have.
pub open spec fn fits_pixmap(width: u32, height: u32) -> bool {
    &&& 1 <= width <= MAX_SIDE
    &&& 1 <= height
    &&& 4 * width * height <= isize::MAX
}

/// Whether a document of this extent can be rendered: its grid can be held
/// and is no higher than [`MAX_SIDE`].
pub open spec fn renderable(width: u32, height: u32) -> bool {
    fits_pixmap(width, height) && height <= MAX_SIDE
}

/// `usvg::Tree::size` and `tiny_skia::Size::to_int_size` on it: the
/// document's size with each side rounded to a whole number of pixels, and
/// to one pixel where that would be none.
#[verifier::external_body]
fn tree_pixel_size(tree: &Tree) -> (extent: (u32, u32))
    ensures
        extent == tree_extent(*tree),
        extent.0 >= 1,
        extent.1 >= 1,
{
    let size = tree.size().to_int_size();
    (size.width(), size.height())
}

/// `tiny_skia::Pixmap::new`: a grid of the given extent that holds four
/// zero bytes for each pixel, so that every pixel is transparent; or nothing
/// where a side is zero or the width exceeds [`MAX_SIDE`].
///
/// The grid's bytes are allocated as one vector, which panics beyond
/// `isize::MAX` bytes: such extents are left out. Running out of memory is
/// not modelled.
#[verifier::external_body]
fn new_pixmap(width: u32, height: u32) -> (made: Option<Pixmap>)
    requires
        4 * width * height <= isize::MAX,
    ensures
        made is Some <==> fits_pixmap(width, height),
        made matches Some(pixmap) ==> {
            &&& pixmap_extent(pixmap) == (width, height)
            &&& pixmap_bytes(pixmap).len() == 4 * width * height
            &&& forall|i: int| 0 <= i < 4 * width * height ==> pixmap_bytes(pixmap)[i] == 0
        },
{
    Pixmap::new(width, height)
}

/// `tiny_skia::Pixmap::width` and `tiny_skia::Pixmap::height`. Every grid
/// has an extent that fits: it holds at least the bytes of its extent.
#[verifier::external_body]
pub(crate) fn pixmap_size(pixmap: &Pixmap) -> (extent: (u32, u32))
    ensures
        extent == pixmap_extent(*pixmap),
        fits_pixmap(extent.0, extent.1),
{
    (pixmap.width(), pixmap.height())
}

/// `tiny_skia::Pixmap::data`: the bytes that the grid holds, as they are.
#[verifier::external_body]
fn grid_bytes(pixmap: &Pixmap) -> (bytes: &[u8])
    ensures
        bytes@ == pixmap_bytes(*pixmap),
{
    pixmap.data()
}

/// What becomes of the parser's answer: the document as it is, a parse
/// failure as the error that it is reported as.
pub open spec fn loaded(parsed: Result<Tree, ParseFailure>) -> Result<Tree, ReportError> {
    match parsed {
        Ok(tree) => Ok(tree),
        Err(failure) => Err(failure.reported_as()),
    }
}

/// Computes [`loaded`].
pub fn accept_parsed(parsed: Result<Tree, ParseFailure>) -> (outcome: Result<Tree, ReportError>)
    ensures
        outcome == loaded(parsed),
{
    match parsed {
        Ok(tree) => Ok(tree),
        Err(failure) => Err(failure.into_error()),
    }
}

/// Makes the pixel grid that a document is to be rendered onto, unscaled.
///
/// The grid has the document's extent, is exact, and every pixel of it is
/// transparent. A document whose extent is not [`renderable`] gets no grid
/// but [`ReportError::DegenerateSize`].
pub fn prepare_grid(svg: &Tree) -> (outcome: Result<Pixmap, ReportError>)
    ensures
        outcome is Ok <==> renderable(tree_extent(*svg).0, tree_extent(*svg).1),
        outcome matches Ok(pixmap) ==> {
            &&& pixmap_extent(pixmap) == tree_extent(*svg)
            &&& is_exact_grid(pixmap)
            &&& pixmap_alphas(pixmap).len() == tree_extent(*svg).0 * tree_extent(*svg).1
            &&& forall|i: int|
                0 <= i < pixmap_bytes(pixmap).len() ==> #[trigger] pixmap_bytes(pixmap)[i] == 0
            &&& opaque_count(pixmap_alphas(pixmap)) == 0
        },
        outcome matches Err(error) ==> error == ReportError::DegenerateSize,
{
    let (width, height): (u32, u32) = tree_pixel_size(svg);
    if width > MAX_SIDE || height > MAX_SIDE {
        return Err(ReportError::DegenerateSize);
    }
    assert(4 * width * height <= 4 * MAX_SIDE * MAX_SIDE) by (nonlinear_arith)
        requires
            width <= MAX_SIDE,
            height <= MAX_SIDE,
    ;
    let bytes: u64 = 4 * (width as u64) * (height as u64);
    if bytes > isize::MAX as u64 {
        return Err(ReportError::DegenerateSize);
    }
    match new_pixmap(width, height) {
        Some(pixmap) => {
            proof {
                lemma_exact_grid_has_a_pixel_per_place(pixmap);
                lemma_none_opaque(pixmap_alphas(pixmap));
            }
            Ok(pixmap)
        },
        None => Err(ReportError::DegenerateSize),
    }
}

/// Counts the pixels of a grid that are fully opaque. A pixel that is
/// partly transparent, however little, does not count.
///
/// Every full group of four bytes that the grid holds is a pixel. On an
/// exact grid these are the `width * height` pixels of its extent.
pub fn calculate_area(pixmap: &Pixmap) -> (area: u64)
    ensures
        area == opaque_count(pixmap_alphas(*pixmap)),
        area <= pixmap_alphas(*pixmap).len(),
        is_exact_grid(*pixmap) ==> area <= pixmap_extent(*pixmap).0 * pixmap_extent(*pixmap).1,
{
    let bytes: &[u8] = grid_bytes(pixmap);
    let pixels: usize = bytes.len() / 4;
    let ghost alphas: Seq<u8> = alphas_of(bytes@);
    let mut area: u64 = 0;
    let mut index: usize = 0;
    while index < pixels
        invariant
            index <= pixels,
            pixels == bytes@.len() / 4,
            bytes@.len() <= usize::MAX,
            alphas == alphas_of(bytes@),
            area == opaque_count(alphas.take(index as int)),
            area <= index,
        decreases pixels - index,
    {
        proof {
            lemma_opaque_count_step(alphas, index as int);
        }
        if bytes[4 * index + 3] == OPAQUE {
            area = area + 1;
        }
        index = index + 1;
    }
    proof {
        assert(alphas.take(index as int) =~= alphas);
        if is_exact_grid(*pixmap) {
            lemma_exact_grid_has_a_pixel_per_place(*pixmap);
        }
    }
    area
}

} // verus!
