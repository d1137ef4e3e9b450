//! The render pipeline: request validation, layout and rasterization of the
//! node tree, and encoding of the resulting pixel buffer.
//!
//! A render is staged: the format string is resolved first (an unrecognized
//! format is rejected before any other work), the tree description is parsed,
//! the tree is laid out and rasterized against the clamped viewport, and the
//! pixel buffer is encoded. The first failure aborts the call with an error
//! naming its stage; no partial output is ever returned.

use vstd::prelude::*;
use vstd::string::StringSliceAdditionalSpecFns;

use crate::error::PipelineError;
use crate::format::{
    encode_quality, format_code, format_of, resolved_quality, ImageFormat, parse_format,
    resolve_quality,
};
use crate::geometry::{clamp_dimension, clamped_dim, PixelBuffer};

verus! {

/// takumi's node tree, carried opaquely from parsing to rendering.
#[verifier::external_type_specification]
#[verifier::external_body]
pub struct ExNode(takumi::prelude::Node);

/// Whether a string is a well-formed JSON description of a node tree: one
/// that deserialization of takumi's `Node` accepts. Acceptance depends on the
/// characters alone.
pub uninterp spec fn node_json_ok(s: Seq<char>) -> bool;

/// The bytes the encoder produces for a pixel buffer: `data` is the RGBA8
/// buffer, `width` and `height` its pixel dimensions, `fmt` a format code and
/// `quality` the lossy quality; `None` stands for an encoder failure. PNG and
/// JPEG encoding in `takumi::write_image` are deterministic functions of
/// these alone. (Lossy WebP runs through libwebp, whose output is not treated
/// as machine-independent here, so no contract applies this name to it.)
pub uninterp spec fn encode_of(
    data: Seq<u8>,
    width: int,
    height: int,
    fmt: int,
    quality: u8,
) -> Option<Seq<u8>>;

/// Relies on `serde_json::from_str` deserializing takumi's `Node`: whether
/// the text parses as a node tree depends on the text alone.
#[verifier::external_body]
fn parse_node(json: &str) -> (r: Result<takumi::prelude::Node, String>)
    ensures
        r is Ok <==> node_json_ok(json@),
{
    serde_json::from_str::<takumi::prelude::Node>(json).map_err(|e| format!("{e}"))
}

/// Relies on takumi's `render`: it lays out the node tree against the
/// definite viewport and rasterizes it into an RGBA8 bitmap of four bytes per
/// pixel whose dimensions are exactly the viewport's (a definite viewport
/// axis overrides the layout size; the axis passes through `f32`, exact for
/// values up to 2^24).
#[verifier::external_body]
fn render_tree(
    fonts: &takumi::prelude::Fonts,
    node: takumi::prelude::Node,
    width: u32,
    height: u32,
) -> (r: Result<PixelBuffer, String>)
    ensures
        r matches Ok(b) ==> b.wf() && (width <= 16777216 && height <= 16777216 ==> b.width
            == width && b.height == height),
{
    let options = takumi::prelude::RenderOptions::builder().viewport(
        takumi::prelude::Viewport::new((width, height)),
    ).node(node).fonts(fonts).build();
    match takumi::render(options) {
        Ok(bitmap) => Ok(
            PixelBuffer {
                width: bitmap.width(),
                height: bitmap.height(),
                data: bitmap.into_raw(),
            },
        ),
        Err(e) => Err(format!("{e}")),
    }
}

/// Relies on takumi's `write_image`: it encodes the pixel buffer into the
/// requested format, writing into a fresh byte vector. PNG ignores the
/// quality value; JPEG and WebP use it.
#[verifier::external_body]
fn encode_pixels(buf: PixelBuffer, format: ImageFormat, quality: u8) -> (r: Result<
    Vec<u8>,
    String,
>)
    requires
        buf.wf(),
        quality <= 100,
    ensures
        format != ImageFormat::WebP ==> (r is Ok <==> encode_of(
            buf.data@,
            buf.width as int,
            buf.height as int,
            format_code(format),
            encode_quality(format, quality),
        ) is Some),
        format != ImageFormat::WebP ==> (r matches Ok(v) ==> Some(v@) == encode_of(
            buf.data@,
            buf.width as int,
            buf.height as int,
            format_code(format),
            encode_quality(format, quality),
        )),
{
    let bitmap = takumi::prelude::Bitmap::from_raw(buf.width, buf.height, buf.data).ok_or(
        String::new(),
    )?;
    let out_format = match format {
        ImageFormat::Png => takumi::prelude::OutputFormat::Png,
        ImageFormat::Jpeg => takumi::prelude::OutputFormat::Jpeg {
            quality: takumi::prelude::Quality::new(quality),
        },
        ImageFormat::WebP => takumi::prelude::OutputFormat::WebP {
            quality: takumi::prelude::Quality::new(quality),
        },
    };
    let mut out: Vec<u8> = Vec::new();
    takumi::write_image(&bitmap, &mut out, out_format).map_err(|e| format!("{e}"))?;
    Ok(out)
}

/// Parses a JSON node-tree description into the tree the layout engine
/// consumes. A malformed description — one that does not match the node
/// schema — yields an `InputParse` error, exactly when the text is not a
/// well-formed tree description.
pub fn parse_tree(json: &str) -> (r: Result<takumi::prelude::Node, PipelineError>)
    ensures
        r is Ok <==> node_json_ok(json@),
        r matches Err(e) ==> e is InputParse,
{
    match parse_node(json) {
        Ok(n) => Ok(n),
        Err(m) => Err(PipelineError::InputParse(m)),
    }
}

/// Lays out and rasterizes a node tree against a viewport of at least one
/// pixel on each axis, reading the frozen font registry. A successful render
/// yields a well-formed RGBA8 buffer of exactly the viewport's dimensions
/// (for axes up to 2^24, within which the engine's arithmetic is exact); a
/// failure is a `Render` error.
pub fn render_buffer(
    fonts: &takumi::prelude::Fonts,
    node: takumi::prelude::Node,
    width: u32,
    height: u32,
) -> (r: Result<PixelBuffer, PipelineError>)
    requires
        width >= 1,
        height >= 1,
    ensures
        r matches Err(e) ==> e is Render,
        r matches Ok(b) ==> b.wf() && (width <= 16777216 && height <= 16777216 ==> b.width
            == width && b.height == height),
{
    match render_tree(fonts, node, width, height) {
        Ok(b) => Ok(b),
        Err(m) => Err(PipelineError::Render(m)),
    }
}

/// Encodes one well-formed pixel buffer into the requested format at the
/// resolved quality. A failure is an `Encode` error; a successful PNG or
/// JPEG result is the deterministic encoding of the buffer's pixels, and for
/// those formats success holds exactly when the encoder accepts the buffer.
pub fn encode_buffer(buf: PixelBuffer, format: ImageFormat, quality: u8) -> (r: Result<
    Vec<u8>,
    PipelineError,
>)
    requires
        buf.wf(),
        quality <= 100,
    ensures
        r matches Err(e) ==> e is Encode,
        format != ImageFormat::WebP ==> (r is Ok <==> encode_of(
            buf.data@,
            buf.width as int,
            buf.height as int,
            format_code(format),
            encode_quality(format, quality),
        ) is Some),
        format != ImageFormat::WebP ==> (r matches Ok(v) ==> Some(v@) == encode_of(
            buf.data@,
            buf.width as int,
            buf.height as int,
            format_code(format),
            encode_quality(format, quality),
        )),
{
    match encode_pixels(buf, format, quality) {
        Ok(v) => Ok(v),
        Err(m) => Err(PipelineError::Encode(m)),
    }
}

/// A validated render request: the parsed root node, the clamped viewport,
/// the frozen font registry it will read, the output format and the resolved
/// quality. Immutable once built.
pub struct RenderRequest<'a> {
    /// The frozen font registry this render reads.
    pub fonts: &'a takumi::prelude::Fonts,
    /// The root of the node tree to render.
    pub node: takumi::prelude::Node,
    /// Viewport width in pixels, at least one.
    pub width: u32,
    /// Viewport height in pixels, at least one.
    pub height: u32,
    /// The output format.
    pub format: ImageFormat,
    /// The resolved lossy quality, inside `0..=100`.
    pub quality: u8,
}

impl<'a> RenderRequest<'a> {
    /// The request's validity invariant: the viewport resolves to at least
    /// one pixel on either axis and the quality is in range.
    pub open spec fn wf(self) -> bool {
        self.width >= 1 && self.height >= 1 && self.quality <= 100
    }

    /// Builds a validated request: clamps the viewport dimensions to a
    /// minimum of one pixel and resolves an out-of-range quality to the
    /// format default.
    pub fn new(
        fonts: &'a takumi::prelude::Fonts,
        node: takumi::prelude::Node,
        width: i32,
        height: i32,
        format: ImageFormat,
        quality: i32,
    ) -> (r: RenderRequest<'a>)
        ensures
            r.wf(),
            r.width == clamped_dim(width as int),
            r.height == clamped_dim(height as int),
            r.format == format,
            r.quality == resolved_quality(quality as int),
            r.fonts == fonts,
    {
        RenderRequest {
            fonts,
            node,
            width: clamp_dimension(width),
            height: clamp_dimension(height),
            format,
            quality: resolve_quality(quality),
        }
    }
}

/// Runs layout, rasterization and encoding for one validated request. The
/// output of a successful PNG or JPEG render is the deterministic encoding of
/// an RGBA8 buffer holding exactly the request's width × height pixels.
pub fn render_request(req: RenderRequest<'_>) -> (r: Result<Vec<u8>, PipelineError>)
    requires
        req.wf(),
    ensures
        r matches Err(e) ==> e is Render || e is Encode,
        r matches Ok(v) ==> (req.format != ImageFormat::WebP && req.width <= 16777216 && req.height
            <= 16777216 ==> exists|d: Seq<u8>|
            d.len() == 4 * req.width * req.height && Some(v@) == #[trigger] encode_of(
                d,
                req.width as int,
                req.height as int,
                format_code(req.format),
                encode_quality(req.format, req.quality),
            )),
{
    let buf = match render_buffer(req.fonts, req.node, req.width, req.height) {
        Ok(b) => b,
        Err(e) => {
            return Err(e);
        },
    };
    let ghost buf_data: Seq<u8> = buf.data@;
    match encode_buffer(buf, req.format, req.quality) {
        Ok(v) => {
            proof {
                if req.format != ImageFormat::WebP && req.width <= 16777216 && req.height
                    <= 16777216 {
                    assert(buf_data.len() == 4 * req.width * req.height && Some(v@) == encode_of(
                        buf_data,
                        req.width as int,
                        req.height as int,
                        format_code(req.format),
                        encode_quality(req.format, req.quality),
                    ));
                }
            }
            Ok(v)
        },
        Err(e) => Err(e),
    }
}

/// The boundary operation: renders a JSON node-tree description into image
/// bytes of the requested format.
///
/// The format string is matched case-insensitively against `png`, `jpeg`,
/// `jpg` and `webp`; any other string is rejected with an
/// `UnsupportedFormat` error before any parsing, layout or encoding work, so
/// no bytes are ever produced for it. A malformed tree description yields an
/// `InputParse` error and touches nothing else. Viewport dimensions below one
/// pixel are clamped to one; a quality outside `0..=100` falls back to the
/// format default. A successful PNG or JPEG result is the deterministic
/// encoding of an RGBA8 buffer holding exactly the clamped width × height
/// pixels.
pub fn render_image(
    fonts: &takumi::prelude::Fonts,
    tree_json: &str,
    width: i32,
    height: i32,
    format: &str,
    quality: i32,
) -> (r: Result<Vec<u8>, PipelineError>)
    ensures
        ((r matches Err(e) && e is UnsupportedFormat) <==> format_of(format.spec_bytes()) is None),
        r matches Err(e) ==> (e is UnsupportedFormat ==> e->UnsupportedFormat_0@ == format@),
        format_of(format.spec_bytes()) is Some ==> ((r matches Err(e) && e is InputParse) <==> !node_json_ok(
            tree_json@,
        )),
        r matches Err(e) ==> !(e is FontLoad) && !(e is LayoutBuild),
        r is Ok ==> format_of(format.spec_bytes()) is Some && node_json_ok(tree_json@),
        format_of(format.spec_bytes()) matches Some(f) ==> (r matches Ok(v) ==> (f
            != ImageFormat::WebP && clamped_dim(width as int) <= 16777216 && clamped_dim(
            height as int,
        ) <= 16777216 ==> exists|d: Seq<u8>|
            d.len() == 4 * clamped_dim(width as int) * clamped_dim(height as int) && Some(v@)
                == #[trigger] encode_of(
                d,
                clamped_dim(width as int) as int,
                clamped_dim(height as int) as int,
                format_code(f),
                encode_quality(f, resolved_quality(quality as int)),
            ))),
{
    let fmt = match parse_format(format) {
        Some(f) => f,
        None => {
            return Err(PipelineError::UnsupportedFormat(format.to_owned()));
        },
    };
    let node = match parse_tree(tree_json) {
        Ok(n) => n,
        Err(e) => {
            return Err(e);
        },
    };
    let req = RenderRequest::new(fonts, node, width, height, fmt, quality);
    render_request(req)
}

/// A quality outside `0..=100` resolves to the fixed default, so a PNG or
/// JPEG encode of any buffer runs at exactly the bytes that passing the
/// default quality explicitly produces.
pub proof fn lemma_out_of_range_quality_encodes_as_default(
    d: Seq<u8>,
    w: int,
    h: int,
    f: ImageFormat,
    q: int,
)
    requires
        q < 0 || q > 100,
        f != ImageFormat::WebP,
    ensures
        encode_of(d, w, h, format_code(f), encode_quality(f, resolved_quality(q))) == encode_of(
            d,
            w,
            h,
            format_code(f),
            encode_quality(f, resolved_quality(crate::format::DEFAULT_LOSSY_QUALITY as int)),
        ),
{
}

/// PNG is lossless: its encoding of a buffer does not depend on the quality
/// value at all, so two PNG encodes of equal buffers are byte-identical
/// whatever qualities were requested.
pub proof fn lemma_png_encode_ignores_quality(d: Seq<u8>, w: int, h: int, q1: u8, q2: u8)
    ensures
        encode_of(d, w, h, format_code(ImageFormat::Png), encode_quality(ImageFormat::Png, q1))
            == encode_of(
            d,
            w,
            h,
            format_code(ImageFormat::Png),
            encode_quality(ImageFormat::Png, q2),
        ),
{
}

} // verus!
