//! The pipeline's error taxonomy.
//!
//! Every stage fails fast: a failure aborts the whole call and surfaces a
//! single error identifying the stage and the underlying cause. The pipeline
//! never returns partial or degraded output.

use vstd::prelude::*;

verus! {

/// A staged pipeline failure. Each variant names the stage that produced it
/// and carries the underlying cause as text.
#[derive(Debug)]
pub enum PipelineError {
    /// The tree description is malformed or misses required fields.
    InputParse(String),
    /// Font bytes are not a valid font container; only occurs while the font
    /// registry is being built.
    FontLoad(String),
    /// The render request is structurally invalid (a programming-contract
    /// violation, not a recoverable input error).
    LayoutBuild(String),
    /// Rasterization failed, e.g. on undecodable embedded image data.
    Render(String),
    /// A format-specific encoder write failure.
    Encode(String),
    /// The format string names no supported output format.
    UnsupportedFormat(String),
}

impl PipelineError {
    /// The name of the stage that produced this error.
    pub fn stage(&self) -> (r: &'static str)
        ensures
            self is InputParse ==> r@ == "InputParseError"@,
            self is FontLoad ==> r@ == "FontLoadError"@,
            self is LayoutBuild ==> r@ == "LayoutBuildError"@,
            self is Render ==> r@ == "RenderError"@,
            self is Encode ==> r@ == "EncodeError"@,
            self is UnsupportedFormat ==> r@ == "UnsupportedFormatError"@,
    {
        match self {
            PipelineError::InputParse(_) => "InputParseError",
            PipelineError::FontLoad(_) => "FontLoadError",
            PipelineError::LayoutBuild(_) => "LayoutBuildError",
            PipelineError::Render(_) => "RenderError",
            PipelineError::Encode(_) => "EncodeError",
            PipelineError::UnsupportedFormat(_) => "UnsupportedFormatError",
        }
    }

    /// A descriptive error string naming the failing stage and the
    /// underlying cause, ready to surface at the boundary.
    pub fn describe(&self) -> (r: String)
        ensures
            self is InputParse ==> r@ == "InputParseError: "@ + self->InputParse_0@,
            self is FontLoad ==> r@ == "FontLoadError: "@ + self->FontLoad_0@,
            self is LayoutBuild ==> r@ == "LayoutBuildError: "@ + self->LayoutBuild_0@,
            self is Render ==> r@ == "RenderError: "@ + self->Render_0@,
            self is Encode ==> r@ == "EncodeError: "@ + self->Encode_0@,
            self is UnsupportedFormat ==> r@ == "UnsupportedFormatError: "@
                + self->UnsupportedFormat_0@,
    {
        let mut s: String = match self {
            PipelineError::InputParse(_) => String::from_str("InputParseError: "),
            PipelineError::FontLoad(_) => String::from_str("FontLoadError: "),
            PipelineError::LayoutBuild(_) => String::from_str("LayoutBuildError: "),
            PipelineError::Render(_) => String::from_str("RenderError: "),
            PipelineError::Encode(_) => String::from_str("EncodeError: "),
            PipelineError::UnsupportedFormat(_) => String::from_str("UnsupportedFormatError: "),
        };
        s.append(self.message());
        s
    }

    /// The underlying cause, as carried by the failing stage.
    pub fn message(&self) -> (r: &str)
        ensures
            self is InputParse ==> r@ == self->InputParse_0@,
            self is FontLoad ==> r@ == self->FontLoad_0@,
            self is LayoutBuild ==> r@ == self->LayoutBuild_0@,
            self is Render ==> r@ == self->Render_0@,
            self is Encode ==> r@ == self->Encode_0@,
            self is UnsupportedFormat ==> r@ == self->UnsupportedFormat_0@,
    {
        match self {
            PipelineError::InputParse(m) => m.as_str(),
            PipelineError::FontLoad(m) => m.as_str(),
            PipelineError::LayoutBuild(m) => m.as_str(),
            PipelineError::Render(m) => m.as_str(),
            PipelineError::Encode(m) => m.as_str(),
            PipelineError::UnsupportedFormat(m) => m.as_str(),
        }
    }
}

} // verus!
