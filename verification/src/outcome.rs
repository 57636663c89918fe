//! The typed result of one build: either the three collected artifacts or
//! the toolchain's diagnostic text. Partial success is not representable.

use vstd::prelude::*;

verus! {

/// The mathematical model of a build outcome.
pub enum OutcomeView {
    Output { index_html: Seq<char>, js: Seq<char>, wasm: Seq<u8> },
    CompileError { diagnostic: Seq<char> },
}

/// What one build produced: either every artifact of a successful build,
/// fully populated, or the diagnostic of a failed compilation, verbatim.
#[derive(Debug, PartialEq, Eq)]
pub enum Response {
    /// The toolchain exited zero and all three artifacts were collected.
    Output { index_html: String, js: String, wasm: Vec<u8> },
    /// The toolchain exited non-zero; the payload is its error stream.
    CompileError(String),
}

impl View for Response {
    type V = OutcomeView;

    open spec fn view(&self) -> OutcomeView {
        match self {
            Response::Output { index_html, js, wasm } => OutcomeView::Output {
                index_html: index_html@,
                js: js@,
                wasm: wasm@,
            },
            Response::CompileError(diagnostic) => OutcomeView::CompileError {
                diagnostic: diagnostic@,
            },
        }
    }
}

impl Response {
    /// A successful outcome carries exactly the three collected artifacts.
    pub fn output(index_html: String, js: String, wasm: Vec<u8>) -> (r: Response)
        ensures
            r@ == (OutcomeView::Output { index_html: index_html@, js: js@, wasm: wasm@ }),
    {
        Response::Output { index_html, js, wasm }
    }

    /// A failed compilation carries the toolchain's diagnostic verbatim.
    pub fn compile_failure(diagnostic: String) -> (r: Response)
        ensures
            r@ == (OutcomeView::CompileError { diagnostic: diagnostic@ }),
    {
        Response::CompileError(diagnostic)
    }

    /// The HTTP status this outcome is relayed with: a collected build is
    /// 200, a compiler-reported failure is 400.
    pub fn status_code(&self) -> (s: u16)
        ensures
            self@ is Output ==> s == 200,
            self@ is CompileError ==> s == 400,
    {
        match self {
            Response::Output { .. } => 200,
            Response::CompileError(_) => 400,
        }
    }
}

} // verus!
