//! The client's view of a run reply: the artifact payload of a
//! successful call, and the parsing of the binary envelope the gateway
//! relays. The HTTP call itself lives outside the crate.

use vstd::prelude::*;
use vstd::string::*;
use crate::codec::{decode, spec_decodable, spec_encodable, spec_encode};
use crate::errors::ApiError;
use crate::outcome;
use crate::outcome::OutcomeView;
use crate::strutil::{append_decimal_u32, spec_decimal};

verus! {

/// The artifact payload of one successful run call.
#[derive(Debug, PartialEq, Eq)]
pub struct RunResponse {
    pub index_html: String,
    pub js: String,
    pub wasm: Vec<u8>,
}

/// A run reply as the client consumes it: something to render, or the
/// compiler's diagnostic to display.
#[derive(Debug, PartialEq, Eq)]
pub enum Response {
    /// A compiled artifact set to load into the preview frame.
    Render { index_html: String, js: String, wasm: Vec<u8> },
    /// The toolchain's diagnostic, displayed verbatim.
    CompileError(String),
}

impl View for Response {
    type V = OutcomeView;

    open spec fn view(&self) -> OutcomeView {
        match self {
            Response::Render { index_html, js, wasm } => OutcomeView::Output {
                index_html: index_html@,
                js: js@,
                wasm: wasm@,
            },
            Response::CompileError(diagnostic) => OutcomeView::CompileError {
                diagnostic: diagnostic@,
            },
        }
    }
}

/// Reads a relayed outcome into the client's representation, unchanged.
pub fn from_outcome(o: outcome::Response) -> (r: Response)
    ensures
        r@ == o@,
{
    match o {
        outcome::Response::Output { index_html, js, wasm } => Response::Render {
            index_html,
            js,
            wasm,
        },
        outcome::Response::CompileError(diagnostic) => Response::CompileError(diagnostic),
    }
}

/// Parses the binary body of a run reply: exactly the envelopes the
/// codec produces are accepted, and yield the one outcome they encode.
pub fn parse_run_body(bytes: &Vec<u8>) -> (r: Result<Response, ApiError>)
    ensures
        r matches Ok(o) ==> spec_encodable(o@) && bytes@ == spec_encode(o@),
        spec_decodable(bytes@) ==> r is Ok,
        r matches Err(e) ==> e is CodecError,
{
    match decode(bytes) {
        Result::Ok(o) => Result::Ok(from_outcome(o)),
        Result::Err(e) => Result::Err(e),
    }
}

/// The error text shown for a run reply with a failure status: the
/// status, a separator, and the reply text verbatim.
pub fn run_reply_error(status: u16, text: &String) -> (r: String)
    ensures
        r@ == spec_decimal(status as int) + ": "@ + text@,
{
    let mut out = String::new();
    append_decimal_u32(&mut out, status as u32);
    out.append(": ");
    out.append(text.as_str());
    proof {
        assert(out@ =~= spec_decimal(status as int) + ": "@ + text@);
    }
    out
}

} // verus!
