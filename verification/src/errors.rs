//! The closed error taxonomy of the gateway, and its mapping to HTTP
//! status codes.
//!
//! A compiler-reported failure is deliberately *not* an error here: it is a
//! normal outcome variant (see `outcome::Response`). `ApiError` covers only
//! the conditions under which the gateway itself cannot produce a build
//! outcome.

use vstd::prelude::*;
use vstd::string::*;

verus! {

/// One of the three artifact kinds a successful build must leave in the
/// output directory.
#[derive(Clone, Copy, Debug, PartialEq, Eq, Structural)]
pub enum ArtifactKind {
    /// The marker page (`.html`).
    Markup,
    /// The loader script (`.js`).
    Script,
    /// The binary module (`.wasm`).
    Module,
}

impl ArtifactKind {
    /// The filename suffix that classifies an output-directory entry as
    /// this kind of artifact.
    pub open spec fn spec_suffix(self) -> Seq<char> {
        match self {
            ArtifactKind::Markup => ".html"@,
            ArtifactKind::Script => ".js"@,
            ArtifactKind::Module => ".wasm"@,
        }
    }

    /// The canonical name used when reporting this kind as missing.
    pub open spec fn spec_label(self) -> Seq<char> {
        match self {
            ArtifactKind::Markup => "index.html"@,
            ArtifactKind::Script => "index.js"@,
            ArtifactKind::Module => "index.wasm"@,
        }
    }

    pub fn suffix(self) -> (r: &'static str)
        ensures
            r@ == self.spec_suffix(),
    {
        match self {
            ArtifactKind::Markup => ".html",
            ArtifactKind::Script => ".js",
            ArtifactKind::Module => ".wasm",
        }
    }

    pub fn label(self) -> (r: &'static str)
        ensures
            r@ == self.spec_label(),
    {
        match self {
            ArtifactKind::Markup => "index.html",
            ArtifactKind::Script => "index.js",
            ArtifactKind::Module => "index.wasm",
        }
    }
}

/// Everything that can keep the gateway from producing a build outcome,
/// one variant per taxonomy entry.
#[derive(Debug)]
pub enum ApiError {
    /// The request carried no source text at all (recoverable, 400).
    NoBody,
    /// The toolchain exited zero but an expected artifact is missing from
    /// the output directory (environment misconfiguration, 500).
    BuildFileNotFound(ArtifactKind),
    /// A filesystem or process-spawn failure before or around the
    /// toolchain invocation (fatal, 500). Carries the reported reason.
    IoError(String),
    /// The caller-side deadline elapsed while the build was still running
    /// (408; the build itself keeps running).
    TimeoutExceeded,
    /// The outcome envelope could not be produced or understood (500).
    CodecError,
}

/// The mathematical model of an `ApiError`.
pub enum ErrorView {
    NoBody,
    BuildFileNotFound { kind: ArtifactKind },
    IoError { reason: Seq<char> },
    TimeoutExceeded,
    CodecError,
}

impl View for ApiError {
    type V = ErrorView;

    open spec fn view(&self) -> ErrorView {
        match self {
            ApiError::NoBody => ErrorView::NoBody,
            ApiError::BuildFileNotFound(kind) => ErrorView::BuildFileNotFound { kind: *kind },
            ApiError::IoError(reason) => ErrorView::IoError { reason: reason@ },
            ApiError::TimeoutExceeded => ErrorView::TimeoutExceeded,
            ApiError::CodecError => ErrorView::CodecError,
        }
    }
}

impl ApiError {
    /// The HTTP status a caller receives for this error.
    pub fn status_code(&self) -> (s: u16)
        ensures
            s == self.spec_status_code(),
    {
        match self {
            ApiError::NoBody => 400,
            ApiError::BuildFileNotFound(_) => 500,
            ApiError::IoError(_) => 500,
            ApiError::TimeoutExceeded => 408,
            ApiError::CodecError => 500,
        }
    }

    pub open spec fn spec_status_code(&self) -> u16 {
        match self {
            ApiError::NoBody => 400,
            ApiError::BuildFileNotFound(_) => 500,
            ApiError::IoError(_) => 500,
            ApiError::TimeoutExceeded => 408,
            ApiError::CodecError => 500,
        }
    }

    /// The human-readable text a caller receives for this error.
    pub open spec fn spec_message(&self) -> Seq<char> {
        match self {
            ApiError::NoBody => "request must have a body but none was found"@,
            ApiError::BuildFileNotFound(kind) => kind.spec_label()
                + " should be present after trunk build but is not"@,
            ApiError::IoError(reason) => reason@,
            ApiError::TimeoutExceeded => "Request took too long"@,
            ApiError::CodecError => "failed to encode or decode the build outcome"@,
        }
    }

    pub fn message(&self) -> (r: String)
        ensures
            r@ == self.spec_message(),
    {
        match self {
            ApiError::NoBody => {
                String::from_str("request must have a body but none was found")
            },
            ApiError::BuildFileNotFound(kind) => {
                let label = kind.label();
                let mut out = label.to_owned();
                out.append(" should be present after trunk build but is not");
                out
            },
            ApiError::IoError(reason) => reason.clone(),
            ApiError::TimeoutExceeded => String::from_str("Request took too long"),
            ApiError::CodecError => {
                String::from_str("failed to encode or decode the build outcome")
            },
        }
    }
}

/// How the serving layer answers when an enclosing middleware reports a
/// failure: a caller-side timeout maps to 408, anything else to 500.
pub fn timeout_or_500(timed_out: bool, detail: &String) -> (r: (u16, String))
    ensures
        timed_out ==> r.0 == 408 && r.1@ == "Request took too long"@,
        !timed_out ==> r.0 == 500 && r.1@ == "Unhandled internal error: "@ + detail@,
{
    if timed_out {
        (408, String::from_str("Request took too long"))
    } else {
        let mut out = "Unhandled internal error: ".to_owned();
        out.append(detail.as_str());
        (500, out)
    }
}

} // verus!
