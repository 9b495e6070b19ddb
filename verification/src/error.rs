//! Error envelope and taxonomy for world loading.
//!
//! Every fallible stage of the pipeline returns a typed reason
//! ([`WorldLoadingError`]) wrapped in a [`SpanErr`], which carries the causal
//! trace captured once, at the point of first failure. Propagation never
//! recomputes the trace: `map` may exchange the typed payload while keeping
//! the original capture.

use vstd::prelude::*;

verus! {

/// The context trace attached to every error, captured when the error is
/// first constructed.
#[verifier::external_type_specification]
#[verifier::external_body]
pub struct ExSpanTrace(tracing_error::SpanTrace);

/// Relies on `tracing_error::SpanTrace::capture`: it records the current
/// span context. The capture depends on ambient tracing state, so nothing
/// is promised of the value.
#[verifier::external_body]
fn capture_span_trace() -> tracing_error::SpanTrace {
    tracing_error::SpanTrace::capture()
}

/// A typed error together with the context trace captured at its origin.
#[derive(Debug)]
pub struct SpanErr<T> {
    pub error: T,
    pub span: tracing_error::SpanTrace,
}

impl<T> SpanErr<T> {
    /// Wraps a freshly detected failure, capturing the context trace once.
    pub fn from(error: T) -> (r: SpanErr<T>)
        ensures
            r.error == error,
    {
        SpanErr { error, span: capture_span_trace() }
    }

    /// Exchanges the typed payload while preserving the originally captured
    /// trace.
    pub fn map<U, F: FnOnce(T) -> U>(self, f: F) -> (r: SpanErr<U>)
        requires
            f.requires((self.error,)),
        ensures
            f.ensures((self.error,), r.error),
            r.span == self.span,
    {
        SpanErr { error: f(self.error), span: self.span }
    }
}

/// The mathematical shadow of [`WorldLoadingError`]: the same taxonomy over
/// character sequences, used by every contract in the crate.
pub enum ErrorView {
    InvalidPath(Seq<char>),
    FileReadFailed(Seq<char>, Seq<char>),
    ParseFailed(Seq<char>),
    KeyMissing(Seq<char>, Seq<char>),
    WrongType(Seq<char>, Seq<char>),
    UnsupportedObjectType(Seq<char>),
    InvalidObjectType(Seq<char>),
    AssetOpenFailed(Seq<char>, Seq<char>),
    SceneGenerationFailed(Seq<char>),
}

/// Why a world failed to load.
///
/// Field-addressed variants carry the offending key first and the path of
/// the mapping that was searched second, so a content author can find the
/// exact spot in the document.
#[derive(Debug, PartialEq, Eq)]
pub enum WorldLoadingError {
    /// The world file path cannot be opened.
    InvalidPath(String),
    /// The path exists but its content could not be read; reason, then path.
    FileReadFailed(String, String),
    /// The content is not structured data of the expected overall shape.
    ParseFailed(String),
    /// A required schema key is absent; key, then the path of its mapping.
    KeyMissing(String, String),
    /// A key is present but its value has the wrong type; key, then path.
    WrongType(String, String),
    /// A well-formed model type tag that no loader handles yet.
    UnsupportedObjectType(String),
    /// The model type tag itself is malformed; the path of the tag.
    InvalidObjectType(String),
    /// The asset loader rejected a resolved path; path, then reason.
    AssetOpenFailed(String, String),
    /// An asset loaded but produced no usable subtree.
    SceneGenerationFailed(String),
}

impl View for WorldLoadingError {
    type V = ErrorView;

    open spec fn view(&self) -> ErrorView {
        match self {
            WorldLoadingError::InvalidPath(p) => ErrorView::InvalidPath(p@),
            WorldLoadingError::FileReadFailed(r, p) => ErrorView::FileReadFailed(r@, p@),
            WorldLoadingError::ParseFailed(r) => ErrorView::ParseFailed(r@),
            WorldLoadingError::KeyMissing(k, c) => ErrorView::KeyMissing(k@, c@),
            WorldLoadingError::WrongType(k, c) => ErrorView::WrongType(k@, c@),
            WorldLoadingError::UnsupportedObjectType(t) => ErrorView::UnsupportedObjectType(t@),
            WorldLoadingError::InvalidObjectType(c) => ErrorView::InvalidObjectType(c@),
            WorldLoadingError::AssetOpenFailed(p, r) => ErrorView::AssetOpenFailed(p@, r@),
            WorldLoadingError::SceneGenerationFailed(r) => ErrorView::SceneGenerationFailed(r@),
        }
    }
}

/// The human-readable account of an error: it names the offending field,
/// object path or file path, and never leaks a raw internal representation.
pub open spec fn spec_message(e: ErrorView) -> Seq<char> {
    match e {
        ErrorView::InvalidPath(p) => "This world file path ("@ + p + ") is invalid"@,
        ErrorView::FileReadFailed(reason, p) => "Failed to read world file ("@ + p
            + "). Reason: "@ + reason,
        ErrorView::ParseFailed(reason) => "Failed to parse world file. Reason: "@ + reason,
        ErrorView::KeyMissing(k, c) => "'"@ + k + "' key was not found in "@ + c + "."@,
        ErrorView::WrongType(k, c) => "'"@ + k + "' key in "@ + c + " has the wrong type."@,
        ErrorView::UnsupportedObjectType(t) => "This 3D object type '"@ + t
            + "' is not yet implemented."@,
        ErrorView::InvalidObjectType(c) => "The 3D object type at "@ + c
            + " is missing or not a string."@,
        ErrorView::AssetOpenFailed(p, reason) => "Failed to open asset file at "@ + p
            + ". Reason: "@ + reason,
        ErrorView::SceneGenerationFailed(reason) => "Failed to generate 3D model. Reason: "@
            + reason,
    }
}

impl WorldLoadingError {
    /// Renders the error for a human: the message names the offending
    /// field, object path or file path.
    pub fn message(&self) -> (r: String)
        ensures
            r@ == spec_message(self@),
    {
        match self {
            WorldLoadingError::InvalidPath(p) => {
                let mut s = "This world file path (".to_owned();
                s.append(p.as_str());
                s.append(") is invalid");
                s
            },
            WorldLoadingError::FileReadFailed(reason, p) => {
                let mut s = "Failed to read world file (".to_owned();
                s.append(p.as_str());
                s.append("). Reason: ");
                s.append(reason.as_str());
                s
            },
            WorldLoadingError::ParseFailed(reason) => {
                let mut s = "Failed to parse world file. Reason: ".to_owned();
                s.append(reason.as_str());
                s
            },
            WorldLoadingError::KeyMissing(k, c) => {
                let mut s = "'".to_owned();
                s.append(k.as_str());
                s.append("' key was not found in ");
                s.append(c.as_str());
                s.append(".");
                s
            },
            WorldLoadingError::WrongType(k, c) => {
                let mut s = "'".to_owned();
                s.append(k.as_str());
                s.append("' key in ");
                s.append(c.as_str());
                s.append(" has the wrong type.");
                s
            },
            WorldLoadingError::UnsupportedObjectType(t) => {
                let mut s = "This 3D object type '".to_owned();
                s.append(t.as_str());
                s.append("' is not yet implemented.");
                s
            },
            WorldLoadingError::InvalidObjectType(c) => {
                let mut s = "The 3D object type at ".to_owned();
                s.append(c.as_str());
                s.append(" is missing or not a string.");
                s
            },
            WorldLoadingError::AssetOpenFailed(p, reason) => {
                let mut s = "Failed to open asset file at ".to_owned();
                s.append(p.as_str());
                s.append(". Reason: ");
                s.append(reason.as_str());
                s
            },
            WorldLoadingError::SceneGenerationFailed(reason) => {
                let mut s = "Failed to generate 3D model. Reason: ".to_owned();
                s.append(reason.as_str());
                s
            },
        }
    }
}

} // verus!
