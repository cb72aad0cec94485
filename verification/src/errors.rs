//! The error object surfaced to the host, and the source locations it carries.

use vstd::prelude::*;

verus! {

/// A half-open byte range into the source text, used to point diagnostics at
/// the place they talk about.
#[derive(Clone, Copy, PartialEq, Eq, Structural, Debug)]
pub struct SrcSpan {
    pub start: usize,
    pub end: usize,
}

/// A string together with the source location it was written at.
#[derive(Clone, Debug)]
pub struct SpannedString {
    pub item: String,
    pub span: SrcSpan,
}

/// The fatal error classes a call can end with. Parse warnings, parse errors
/// and compile errors are advisory: they go to the diagnostic channel and
/// never appear here.
#[derive(Clone, Copy, PartialEq, Eq, Structural, Debug)]
pub enum ErrorKind {
    /// An invalid error-style override; raised before any parsing.
    ConfigOverride,
    /// A failure while preparing the environment or working directory.
    Environment,
    /// A declaration delta that conflicts with existing state.
    Merge,
    /// A runtime failure during evaluation.
    Evaluation,
    /// An error value produced by evaluation and unwrapped by the translator.
    EmbeddedValue,
}

/// The uniform error surfaced to the host: a class, a human-readable message,
/// optional help text, an optional source span, and the messages of nested
/// causes.
#[derive(Clone, Debug)]
pub struct StructuredError {
    pub kind: ErrorKind,
    pub message: String,
    pub help: Option<String>,
    pub span: Option<SrcSpan>,
    pub causes: Vec<String>,
}

/// The plain rendering of an interpreter error: its message, help text, first
/// labeled span, and the messages of nested causes. A kind is added where the
/// bridge knows which phase produced it.
pub struct ErrorParts {
    pub message: String,
    pub help: Option<String>,
    pub span: Option<SrcSpan>,
    pub causes: Vec<String>,
}

impl StructuredError {
    /// The human-readable message, for hosts that only show text.
    pub fn message_text(&self) -> (r: &String)
        ensures
            r == &self.message,
    {
        &self.message
    }

    /// Builds the error surfaced to the host out of a rendered interpreter
    /// error and the phase that produced it.
    pub fn from_parts(kind: ErrorKind, parts: ErrorParts) -> (r: StructuredError)
        ensures
            r.kind == kind,
            r.message == parts.message,
            r.help == parts.help,
            r.span == parts.span,
            r.causes == parts.causes,
    {
        StructuredError {
            kind,
            message: parts.message,
            help: parts.help,
            span: parts.span,
            causes: parts.causes,
        }
    }
}

} // verus!
