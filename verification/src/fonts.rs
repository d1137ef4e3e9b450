//! Font registry construction.
//!
//! The registry owns the loaded font resources and the generic-family
//! fallback targets (sans-serif, monospace, emoji). It is built once, before
//! any render, and read-only thereafter: every render call takes a shared
//! reference to a frozen registry.

use vstd::prelude::*;

use crate::error::PipelineError;

verus! {

/// takumi's font registry, carried opaquely through the pipeline.
#[verifier::external_type_specification]
#[verifier::external_body]
pub struct ExFonts(takumi::prelude::Fonts);

/// The generic font family classes a bundled font can stand in for during
/// fallback resolution.
#[derive(Clone, Copy, Debug, PartialEq, Eq, Structural)]
pub enum FontClass {
    /// The default proportional family.
    SansSerif,
    /// The default fixed-width family.
    Monospace,
    /// The fallback chain tried for codepoints the primary chain cannot
    /// render.
    Emoji,
}

/// Whether a byte block is a font container the rendering engine accepts.
/// What `takumi`'s font loader accepts depends on the bytes alone.
pub uninterp spec fn font_ok(b: Seq<u8>) -> bool;

/// Relies on takumi's `Fonts::default`: a fresh registry with no fonts
/// registered and system fonts disabled.
#[verifier::external_body]
fn fonts_new() -> takumi::prelude::Fonts {
    takumi::prelude::Fonts::default()
}

/// Relies on takumi's `Fonts::register`: it decodes the byte block as a font
/// container and registers its families as the fallback target for the given
/// generic family; whether decoding succeeds depends on the bytes alone.
#[verifier::external_body]
fn register_font(fonts: &mut takumi::prelude::Fonts, bytes: &[u8], class: FontClass) -> (r: Result<
    (),
    String,
>)
    ensures
        r is Ok <==> font_ok(bytes@),
{
    let family = match class {
        FontClass::SansSerif => takumi::prelude::GenericFamily::SANS_SERIF,
        FontClass::Monospace => takumi::prelude::GenericFamily::MONOSPACE,
        FontClass::Emoji => takumi::prelude::GenericFamily::EMOJI,
    };
    let resource = takumi::prelude::FontResource::new(bytes).generic_family(family);
    match fonts.register(resource) {
        Ok(_) => Ok(()),
        Err(e) => Err(format!("{e}")),
    }
}

/// Builds the frozen font registry from the three bundled font resources: a
/// sans-serif default, a monospace default, and an emoji-coverage fallback.
/// Fails fast with a `FontLoad` error on the first byte block that is not a
/// valid font container.
pub fn build_font_registry(sans: &[u8], mono: &[u8], emoji: &[u8]) -> (r: Result<
    takumi::prelude::Fonts,
    PipelineError,
>)
    ensures
        r is Ok <==> font_ok(sans@) && font_ok(mono@) && font_ok(emoji@),
        r matches Err(e) ==> e is FontLoad,
{
    let mut fonts = fonts_new();
    if let Err(m) = register_font(&mut fonts, sans, FontClass::SansSerif) {
        return Err(PipelineError::FontLoad(m));
    }
    if let Err(m) = register_font(&mut fonts, mono, FontClass::Monospace) {
        return Err(PipelineError::FontLoad(m));
    }
    if let Err(m) = register_font(&mut fonts, emoji, FontClass::Emoji) {
        return Err(PipelineError::FontLoad(m));
    }
    Ok(fonts)
}

} // verus!
