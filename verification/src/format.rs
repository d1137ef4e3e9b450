//! Output format selection and quality resolution.
//!
//! A request names its format with a case-insensitive string: `"png"`,
//! `"jpeg"`, `"jpg"` (an alias for JPEG) or `"webp"`. Any other string is
//! rejected before any rendering or encoding work begins. A lossy quality
//! outside `0..=100` falls back to the fixed default.

use vstd::prelude::*;
use vstd::string::StringSliceAdditionalSpecFns;

verus! {

/// The output image formats the encoder accepts.
#[derive(Clone, Copy, Debug, PartialEq, Eq, Structural)]
pub enum ImageFormat {
    /// Lossless PNG; encoding ignores the quality value.
    Png,
    /// Lossy JPEG.
    Jpeg,
    /// Lossy WebP.
    WebP,
}

/// The default quality for lossy formats, used when the requested quality is
/// outside `0..=100`.
pub const DEFAULT_LOSSY_QUALITY: u8 = 75;

/// ASCII lowercasing of one byte; bytes outside `b'A'..=b'Z'` are unchanged.
pub open spec fn lower_byte(b: u8) -> u8 {
    if 65 <= b && b <= 90 {
        (b + 32) as u8
    } else {
        b
    }
}

/// ASCII lowercasing of a byte string.
pub open spec fn lower_bytes(s: Seq<u8>) -> Seq<u8> {
    s.map_values(|b: u8| lower_byte(b))
}

/// The bytes of `"png"`.
pub open spec fn png_name() -> Seq<u8> {
    seq![112u8, 110u8, 103u8]
}

/// The bytes of `"jpeg"`.
pub open spec fn jpeg_name() -> Seq<u8> {
    seq![106u8, 112u8, 101u8, 103u8]
}

/// The bytes of `"jpg"`.
pub open spec fn jpg_name() -> Seq<u8> {
    seq![106u8, 112u8, 103u8]
}

/// The bytes of `"webp"`.
pub open spec fn webp_name() -> Seq<u8> {
    seq![119u8, 101u8, 98u8, 112u8]
}

/// Which format a request string selects: its ASCII lowercasing must be one
/// of `png`, `jpeg`, `jpg` or `webp`; anything else selects no format.
pub open spec fn format_of(s: Seq<u8>) -> Option<ImageFormat> {
    let l = lower_bytes(s);
    if l == png_name() {
        Some(ImageFormat::Png)
    } else if l == jpeg_name() || l == jpg_name() {
        Some(ImageFormat::Jpeg)
    } else if l == webp_name() {
        Some(ImageFormat::WebP)
    } else {
        None
    }
}

/// A numeric code for each output format, used to index the encoder's
/// output: 0 for PNG, 1 for JPEG, 2 for WebP.
pub open spec fn format_code(f: ImageFormat) -> int {
    match f {
        ImageFormat::Png => 0,
        ImageFormat::Jpeg => 1,
        ImageFormat::WebP => 2,
    }
}

/// The quality value an encode of this format depends on: PNG is lossless and
/// ignores quality, so it is pinned to zero there; lossy formats use the
/// resolved quality as given.
pub open spec fn encode_quality(f: ImageFormat, q: u8) -> u8 {
    if f is Png {
        0u8
    } else {
        q
    }
}

/// The quality an encode runs at: a requested value inside `0..=100` is used
/// as given; anything outside falls back to the fixed default.
pub open spec fn resolved_quality(q: int) -> u8 {
    if 0 <= q && q <= 100 {
        q as u8
    } else {
        DEFAULT_LOSSY_QUALITY
    }
}

fn lower_byte_exec(b: u8) -> (r: u8)
    ensures
        r == lower_byte(b),
{
    if 65 <= b && b <= 90 {
        b + 32
    } else {
        b
    }
}

/// Selects the output format named by a byte string, case-insensitively.
pub fn parse_format_bytes(s: &[u8]) -> (r: Option<ImageFormat>)
    ensures
        r == format_of(s@),
{
    let n = s.len();
    if n == 3 {
        let a = lower_byte_exec(s[0]);
        let b = lower_byte_exec(s[1]);
        let c = lower_byte_exec(s[2]);
        proof {
            assert(lower_bytes(s@).len() == 3);
            assert(lower_bytes(s@)[0] == lower_byte(s@[0]));
            assert(lower_bytes(s@)[1] == lower_byte(s@[1]));
            assert(lower_bytes(s@)[2] == lower_byte(s@[2]));
            assert(lower_bytes(s@) != jpeg_name()) by {
                assert(jpeg_name().len() == 4);
            }
            assert(lower_bytes(s@) != webp_name()) by {
                assert(webp_name().len() == 4);
            }
        }
        if a == 112 && b == 110 && c == 103 {
            proof {
                assert(lower_bytes(s@) =~= png_name());
            }
            Some(ImageFormat::Png)
        } else if a == 106 && b == 112 && c == 103 {
            proof {
                assert(lower_bytes(s@) =~= jpg_name());
                assert(lower_bytes(s@) != png_name()) by {
                    assert(png_name()[0] == 112u8);
                }
            }
            Some(ImageFormat::Jpeg)
        } else {
            proof {
                assert(lower_bytes(s@) != png_name()) by {
                    if lower_bytes(s@) == png_name() {
                        assert(a == 112 && b == 110 && c == 103);
                    }
                }
                assert(lower_bytes(s@) != jpg_name()) by {
                    if lower_bytes(s@) == jpg_name() {
                        assert(a == 106 && b == 112 && c == 103);
                    }
                }
            }
            None
        }
    } else if n == 4 {
        let a = lower_byte_exec(s[0]);
        let b = lower_byte_exec(s[1]);
        let c = lower_byte_exec(s[2]);
        let d = lower_byte_exec(s[3]);
        proof {
            assert(lower_bytes(s@).len() == 4);
            assert(lower_bytes(s@)[0] == lower_byte(s@[0]));
            assert(lower_bytes(s@)[1] == lower_byte(s@[1]));
            assert(lower_bytes(s@)[2] == lower_byte(s@[2]));
            assert(lower_bytes(s@)[3] == lower_byte(s@[3]));
            assert(lower_bytes(s@) != png_name()) by {
                assert(png_name().len() == 3);
            }
            assert(lower_bytes(s@) != jpg_name()) by {
                assert(jpg_name().len() == 3);
            }
        }
        if a == 106 && b == 112 && c == 101 && d == 103 {
            proof {
                assert(lower_bytes(s@) =~= jpeg_name());
            }
            Some(ImageFormat::Jpeg)
        } else if a == 119 && b == 101 && c == 98 && d == 112 {
            proof {
                assert(lower_bytes(s@) =~= webp_name());
                assert(lower_bytes(s@) != jpeg_name()) by {
                    assert(jpeg_name()[0] == 106u8);
                }
            }
            Some(ImageFormat::WebP)
        } else {
            proof {
                assert(lower_bytes(s@) != jpeg_name()) by {
                    if lower_bytes(s@) == jpeg_name() {
                        assert(a == 106 && b == 112 && c == 101 && d == 103);
                    }
                }
                assert(lower_bytes(s@) != webp_name()) by {
                    if lower_bytes(s@) == webp_name() {
                        assert(a == 119 && b == 101 && c == 98 && d == 112);
                    }
                }
            }
            None
        }
    } else {
        proof {
            assert(lower_bytes(s@).len() == s@.len());
            assert(lower_bytes(s@) != png_name()) by {
                assert(png_name().len() == 3);
            }
            assert(lower_bytes(s@) != jpeg_name()) by {
                assert(jpeg_name().len() == 4);
            }
            assert(lower_bytes(s@) != jpg_name()) by {
                assert(jpg_name().len() == 3);
            }
            assert(lower_bytes(s@) != webp_name()) by {
                assert(webp_name().len() == 4);
            }
        }
        None
    }
}

/// Selects the output format named by a request string, case-insensitively.
pub fn parse_format(s: &str) -> (r: Option<ImageFormat>)
    ensures
        r == format_of(s.spec_bytes()),
{
    parse_format_bytes(s.as_bytes())
}

/// Resolves a requested quality: values inside `0..=100` are kept, anything
/// outside falls back to the fixed lossy default.
pub fn resolve_quality(q: i32) -> (r: u8)
    ensures
        r == resolved_quality(q as int),
        r <= 100,
{
    if 0 <= q && q <= 100 {
        q as u8
    } else {
        DEFAULT_LOSSY_QUALITY
    }
}

/// Quality resolution is insensitive to which out-of-range value was given:
/// every quality outside `0..=100` resolves to exactly what the default
/// value resolves to when passed explicitly.
pub proof fn lemma_out_of_range_quality_is_default(q: int)
    requires
        q < 0 || q > 100,
    ensures
        resolved_quality(q) == resolved_quality(DEFAULT_LOSSY_QUALITY as int),
{
}

/// Format selection is case-insensitive: two strings with the same ASCII
/// lowercasing select the same format.
pub proof fn lemma_format_case_insensitive(s: Seq<u8>, t: Seq<u8>)
    requires
        lower_bytes(s) == lower_bytes(t),
    ensures
        format_of(s) == format_of(t),
{
}

/// Lowercasing is idempotent, so a lowercase format name selects the same
/// format as any of its cased variants.
pub proof fn lemma_lower_bytes_idempotent(s: Seq<u8>)
    ensures
        lower_bytes(lower_bytes(s)) == lower_bytes(s),
{
    assert(lower_bytes(lower_bytes(s)) =~= lower_bytes(s)) by {
        assert forall|i: int| 0 <= i < s.len() implies lower_bytes(lower_bytes(s))[i] == lower_bytes(
            s,
        )[i] by {
            assert(lower_bytes(s)[i] == lower_byte(s[i]));
        }
    }
}

} // verus!

