//! Counts the fully opaque pixels of a rendered SVG document and reports the
//! count, either as it is or as a percentage of the canvas.
//!
//! A caller parses the document with `usvg` and hands the parser's answer
//! to [`raster::accept_parsed`]. [`raster::prepare_grid`] makes the grid
//! that the document is to be rendered onto, or says why there is none. The
//! caller renders with `resvg`, and [`canvas::report_on_grid`] counts the
//! opaque pixels of the grid and formats the report line.
//!
//! [`opacity`] says what the count is, [`percent`] and [`decimal`] do the
//! arithmetic of a report and [`report`] formats it. What is taken on trust
//! of `usvg` and `tiny-skia` is stated in [`raster`].

pub mod canvas;
pub mod decimal;
pub mod error;
pub mod opacity;
pub mod percent;
pub mod raster;
pub mod report;
