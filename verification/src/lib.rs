//! Renders a declaratively described tree of visual boxes (containers, text
//! runs, images) into a fixed-size raster image and encodes it as PNG, JPEG or
//! WebP bytes.
//!
//! The pipeline validates a request (clamping the viewport, resolving the
//! format string and quality), lays out and rasterizes the node tree through
//! the `takumi` rendering engine, and encodes the resulting pixel buffer.
//! Every decision the pipeline makes — which format a string selects, how
//! dimensions are clamped, which stage an error belongs to — is stated in a
//! contract and verified.

pub mod error;
pub mod format;
pub mod geometry;
pub mod fonts;
pub mod pipeline;
