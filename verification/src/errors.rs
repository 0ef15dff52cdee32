//! The closed error taxonomy of the session core. Every fallible operation
//! returns one of these variants, and every variant renders to a
//! human-readable message.

use vstd::prelude::*;
use vstd::string::StringExecFns;
use crate::commands::CommandError;
use crate::iface::ComServerError;
use crate::text::{spec_dec, usize_to_dec};

verus! {

/// A protocol negative response, decoded: the raw negative-response byte and
/// what the protocol's decoder said about it. Owned plain data throughout, so
/// a value is safe to hand across execution-context boundaries.
#[derive(Debug, Clone)]
pub struct DecodedError {
    /// The raw negative-response byte that was decoded.
    pub nrc: u8,
    /// The decoder's description of the failure.
    pub desc: String,
    /// The decoder's remediation hint, where the protocol gives one.
    pub help: Option<String>,
}

/// Whether `d` is exactly the decoding that the protocol's decoder `E`
/// assigns to the negative-response byte `d.nrc`.
pub open spec fn is_decoding_of<E: CommandError>(d: DecodedError) -> bool {
    &&& d.desc@ == E::spec_from_byte(d.nrc).spec_desc()
    &&& match d.help {
        Some(h) => E::spec_from_byte(d.nrc).spec_help() == Some(h@),
        None => E::spec_from_byte(d.nrc).spec_help() is None,
    }
}

/// Decodes the negative-response byte `b` with the protocol's decoder `E`
/// and keeps the outcome as owned plain data.
pub fn decode_nrc<E: CommandError>(b: u8) -> (r: DecodedError)
    ensures
        r.nrc == b,
        is_decoding_of::<E>(r),
{
    let e = E::from_byte(b);
    DecodedError { nrc: b, desc: e.get_desc(), help: e.get_help() }
}

/// A failure of a diagnostic operation. Exactly one variant is active at a
/// time, and each carries everything needed to render a message.
#[derive(Debug)]
pub enum ProtocolError {
    /// The transport layer failed.
    CommError(ComServerError),
    /// The ECU rejected the request with a negative response.
    ProtocolError(DecodedError),
    /// A free-text failure of a protocol implementation.
    CustomError(String),
    /// A response was shorter than the protocol's contract allows.
    InvalidResponseSize { expect: usize, actual: usize },
    /// No response correlating to the request arrived within the budget.
    Timeout,
}

/// Every fallible operation of the core returns a success value or one
/// `ProtocolError`.
pub type ProtocolResult<T> = Result<T, ProtocolError>;

impl ProtocolError {
    /// True exactly for the `Timeout` variant.
    pub fn is_timeout(&self) -> (r: bool)
        ensures
            r == (self is Timeout),
    {
        match self {
            ProtocolError::CommError(_) => false,
            ProtocolError::ProtocolError(_) => false,
            ProtocolError::CustomError(_) => false,
            ProtocolError::InvalidResponseSize { expect: _, actual: _ } => false,
            ProtocolError::Timeout => true,
        }
    }

    /// The message text of each variant: a transport failure renders its own
    /// message, a negative response its decoded description, and a size
    /// mismatch `"Expected {expect} bytes, got {actual} bytes"`.
    pub open spec fn spec_text(&self) -> Seq<char> {
        match self {
            ProtocolError::CommError(e) => e.spec_text(),
            ProtocolError::ProtocolError(e) => e.desc@,
            ProtocolError::CustomError(s) => s@,
            ProtocolError::InvalidResponseSize { expect, actual } => "Expected "@ + spec_dec(
                *expect as nat,
            ) + " bytes, got "@ + spec_dec(*actual as nat) + " bytes"@,
            ProtocolError::Timeout => "Communication timeout"@,
        }
    }

    /// Renders the human-readable message of the failure.
    pub fn get_text(&self) -> (r: String)
        ensures
            r@ == self.spec_text(),
    {
        match self {
            ProtocolError::CommError(e) => e.get_text(),
            ProtocolError::ProtocolError(e) => e.desc.clone(),
            ProtocolError::CustomError(s) => s.clone(),
            ProtocolError::InvalidResponseSize { expect, actual } => {
                let mut s = String::from_str("Expected ");
                s.append(usize_to_dec(*expect).as_str());
                s.append(" bytes, got ");
                s.append(usize_to_dec(*actual).as_str());
                s.append(" bytes");
                s
            },
            ProtocolError::Timeout => String::from_str("Communication timeout"),
        }
    }
}

impl From<ComServerError> for ProtocolError {
    /// A transport failure converts into the taxonomy without loss: the whole
    /// failure is carried in the `CommError` variant.
    fn from(x: ComServerError) -> (r: ProtocolError)
        ensures
            r == ProtocolError::CommError(x),
    {
        ProtocolError::CommError(x)
    }
}

impl vstd::std_specs::convert::FromSpecImpl<ComServerError> for ProtocolError {
    open spec fn obeys_from_spec() -> bool {
        true
    }

    open spec fn from_spec(x: ComServerError) -> ProtocolError {
        ProtocolError::CommError(x)
    }
}

/// Law: converting a transport failure into the error taxonomy and rendering
/// the result reproduces the transport failure's own message text.
pub proof fn lemma_comm_error_text_round_trip(e: ComServerError)
    ensures
        ProtocolError::CommError(e).spec_text() == e.spec_text(),
{
}

} // verus!
