//! The session engine: the contract every concrete protocol implementation
//! must provide, the shared request/response execution algorithm, and the
//! variant-dispatching session facade.

use vstd::prelude::*;
use crate::commands::{CommandError, ECUCommand};
use crate::dtc::DTC;
use crate::errors::{decode_nrc, is_decoding_of, ProtocolError, ProtocolResult};
use crate::iface::{ComServer, Interface, InterfaceConfig, InterfacePayload, InterfaceType,
    PayloadFlag};
use vstd::string::StringExecFns;

verus! {

/// Addressing parameters for one diagnostic session, immutable for the
/// session's lifetime: where requests go, where responses come from, and an
/// optional functional (global) address.
#[derive(Debug, Clone, Copy)]
pub struct DiagCfg {
    pub send_id: u32,
    pub recv_id: u32,
    pub global_id: Option<u32>,
}

/// Which concrete protocol implementation a session should use.
#[derive(Debug, Copy, Clone, PartialEq, Eq, Structural)]
pub enum DiagProtocol {
    KWP2000,
    UDS,
}

/// The first byte of every negative response.
pub const NEGATIVE_RESPONSE_MARKER: u8 = 0x7F;

/// The negative-response code meaning "processing, wait for the real answer".
pub const RESPONSE_PENDING_NRC: u8 = 0x78;

/// The fixed per-attempt waiting budget, in milliseconds.
pub const RESPONSE_BUDGET_MS: u32 = 2000;

/// The positive-response echo owed to opcode `cmd`: the opcode plus `0x40`,
/// with 8-bit wraparound at `0x100`.
pub open spec fn spec_echo_of(cmd: u8) -> u8 {
    ((cmd + 0x40) % 0x100) as u8
}

/// Computes the positive-response echo of an opcode.
pub fn echo_of(cmd: u8) -> (r: u8)
    ensures
        r == spec_echo_of(cmd),
{
    cmd.wrapping_add(0x40)
}

/// How one received payload stands to the request it should answer.
#[derive(Debug, Copy, Clone, PartialEq, Eq, Structural)]
pub enum ResponseVerdict {
    /// The first byte is the positive-response echo: this is the answer.
    Positive,
    /// A negative response whose code is "response pending": not final,
    /// a follow-up frame is owed.
    Pending,
    /// A final negative response, carrying its negative-response code.
    Negative(u8),
    /// The first byte is neither marker: the response does not correlate
    /// to the request.
    Uncorrelated,
    /// Too short to read: empty, or a negative response shorter than the
    /// three bytes the protocol guarantees.
    TooShort { expect: usize, actual: usize },
}

/// The verdict on response bytes `data` for a request with opcode `cmd`:
/// an empty response cannot be read at all; a negative response (first byte
/// `0x7F`) must carry at least three bytes (marker, echoed opcode, code) and
/// is pending exactly when its code is `0x78`; a first byte equal to the
/// positive-response echo is the answer; anything else does not correlate.
pub open spec fn spec_verdict(cmd: u8, data: Seq<u8>) -> ResponseVerdict {
    if data.len() == 0 {
        ResponseVerdict::TooShort { expect: 1, actual: 0 }
    } else if data[0] == NEGATIVE_RESPONSE_MARKER {
        if data.len() < 3 {
            ResponseVerdict::TooShort { expect: 3, actual: data.len() as usize }
        } else if data[2] == RESPONSE_PENDING_NRC {
            ResponseVerdict::Pending
        } else {
            ResponseVerdict::Negative(data[2])
        }
    } else if data[0] == spec_echo_of(cmd) {
        ResponseVerdict::Positive
    } else {
        ResponseVerdict::Uncorrelated
    }
}

/// Classifies one received payload against the request opcode.
pub fn classify_response(cmd: u8, data: &Vec<u8>) -> (v: ResponseVerdict)
    ensures
        v == spec_verdict(cmd, data@),
{
    let n = data.len();
    if n == 0 {
        ResponseVerdict::TooShort { expect: 1, actual: 0 }
    } else if data[0] == NEGATIVE_RESPONSE_MARKER {
        if n < 3 {
            ResponseVerdict::TooShort { expect: 3, actual: n }
        } else if data[2] == RESPONSE_PENDING_NRC {
            ResponseVerdict::Pending
        } else {
            ResponseVerdict::Negative(data[2])
        }
    } else if data[0] == echo_of(cmd) {
        ResponseVerdict::Positive
    } else {
        ResponseVerdict::Uncorrelated
    }
}

/// Builds the outgoing frame for opcode `cmd`: addressed to `send_id`,
/// carrying `[cmd] ++ args`, with the caller's per-message flags applied.
pub fn build_tx(
    send_id: u32,
    cmd: u8,
    args: &[u8],
    flags: &Option<Vec<PayloadFlag>>,
) -> (tx: InterfacePayload)
    ensures
        tx.id == send_id,
        tx.data@ == seq![cmd] + args@,
        tx.flags@ == (match flags {
            Some(f) => f@,
            None => Seq::<PayloadFlag>::empty(),
        }),
{
    let mut tx_data: Vec<u8> = Vec::new();
    tx_data.push(cmd);
    let mut i: usize = 0;
    while i < args.len()
        invariant
            i <= args.len(),
            tx_data@ == seq![cmd] + args@.subrange(0, i as int),
        decreases args.len() - i,
    {
        tx_data.push(args[i]);
        i = i + 1;
    }
    proof {
        assert(tx_data@ =~= seq![cmd] + args@);
    }
    let mut tx = InterfacePayload::new(send_id, tx_data.as_slice());
    if let Some(f) = flags {
        let fl = f.clone();
        proof {
            assert(fl@ =~= f@);
        }
        tx.flags = fl;
    }
    tx
}

/// Settles the frame under final classification into the caller's result:
/// the positive answer is returned whole; a negative response fails with its
/// decoded code (a frame still marked pending decodes the pending code
/// itself); a non-correlating response is reported as `Timeout`; a response
/// too short to read, as `InvalidResponseSize`.
pub fn settle_response<E: CommandError>(cmd: u8, data: Vec<u8>) -> (r: ProtocolResult<Vec<u8>>)
    ensures
        spec_verdict(cmd, data@) is Positive ==> r == Ok::<Vec<u8>, ProtocolError>(data),
        spec_verdict(cmd, data@) is Pending ==> (r matches Err(ProtocolError::ProtocolError(d))
            && d.nrc == RESPONSE_PENDING_NRC && is_decoding_of::<E>(d)),
        spec_verdict(cmd, data@) matches ResponseVerdict::Negative(n) ==> (r matches Err(
            ProtocolError::ProtocolError(d),
        ) && d.nrc == n && is_decoding_of::<E>(d)),
        spec_verdict(cmd, data@) is Uncorrelated ==> r == Err::<Vec<u8>, ProtocolError>(
            ProtocolError::Timeout,
        ),
        spec_verdict(cmd, data@) matches ResponseVerdict::TooShort { expect, actual } ==> r
            == Err::<Vec<u8>, ProtocolError>((ProtocolError::InvalidResponseSize {
            expect,
            actual,
        })),
{
    match classify_response(cmd, &data) {
        ResponseVerdict::Positive => Ok(data),
        ResponseVerdict::Pending => {
            let nrc = data[2];
            Err(ProtocolError::ProtocolError(decode_nrc::<E>(nrc)))
        },
        ResponseVerdict::Negative(nrc) => Err(
            ProtocolError::ProtocolError(decode_nrc::<E>(nrc)),
        ),
        ResponseVerdict::Uncorrelated => Err(ProtocolError::Timeout),
        ResponseVerdict::TooShort { expect, actual } => Err(
            ProtocolError::InvalidResponseSize { expect, actual },
        ),
    }
}

/// The capability each concrete protocol implementation must provide:
/// session lifecycle and the shared request/response execution algorithm.
pub trait ProtocolServer: Sized {
    /// The protocol's command set.
    type Command: ECUCommand;

    /// The protocol's negative-response decoder.
    type Error: CommandError;

    /// Whether this session is currently open.
    spec fn spec_in_session(&self) -> bool;

    /// Opens a diagnostic session over the transport: fails with a
    /// `ProtocolError` on any transport or negotiation failure, and on
    /// success the session is open.
    fn start_diag_session<C: ComServer>(
        comm_server: &C,
        interface_type: InterfaceType,
        interface_cfg: InterfaceConfig,
        tx_flags: Option<Vec<PayloadFlag>>,
        diag_cfg: DiagCfg,
    ) -> (r: ProtocolResult<Self>)
        ensures
            r matches Ok(s) ==> s.spec_in_session(),
    ;

    /// Best-effort teardown: never fails, and afterwards the session is
    /// closed. Must be safe to invoke even if a command is conceptually in
    /// flight.
    fn exit_diag_session(&mut self)
        ensures
            !final(self).spec_in_session(),
    ;

    /// Sends opcode `cmd` with argument bytes `args` and returns the full
    /// response bytes.
    fn run_command(&self, cmd: u8, args: &[u8]) -> ProtocolResult<Vec<u8>>;

    /// Reads the ECU's stored fault codes. Every call produces fresh
    /// snapshot values with no identity across calls.
    fn read_errors(&self) -> ProtocolResult<Vec<DTC>>;

    /// Reports whether the session is open.
    fn is_in_diag_session(&self) -> (r: bool)
        ensures
            r == self.spec_in_session(),
    ;

    /// The last failure this session saw, if any, as display text.
    fn get_last_error(&self) -> Option<String>;

    /// The shared request/response algorithm. Builds the outgoing frame as
    /// `[cmd] ++ args` and applies the caller's per-message flags. Without
    /// `receive_require` it sends once and returns no bytes. Otherwise it
    /// sends and waits up to the fixed budget; one "response pending"
    /// negative response buys a single further wait (failing with the
    /// decoded pending code if no follow-up arrives). A final negative
    /// response fails with its decoded code; a response echoing `cmd + 0x40`
    /// is returned whole; a non-correlating response is reported as
    /// `Timeout`; a response too short to read is a protocol violation,
    /// reported as `InvalidResponseSize`.
    fn run_command_resp<I: Interface>(
        interface: &mut I,
        flags: &Option<Vec<PayloadFlag>>,
        send_id: u32,
        cmd: u8,
        args: &[u8],
        receive_require: bool,
    ) -> (r: ProtocolResult<Vec<u8>>)
        ensures
            !receive_require ==> (r matches Ok(v) ==> v@ == Seq::<u8>::empty()),
            !receive_require ==> (r matches Err(e) ==> e is CommError),
            receive_require ==> (r matches Ok(v) ==> v@.len() > 0 && v@[0] == spec_echo_of(
                cmd,
            )),
            r matches Err(e) ==> !(e is CustomError),
            r matches Err(e) ==> (e matches ProtocolError::ProtocolError(d)
                ==> is_decoding_of::<Self::Error>(d)),
            r matches Err(e) ==> (e matches ProtocolError::InvalidResponseSize {
                expect,
                actual,
            } ==> (expect == 1 || expect == 3) && actual < expect),
    {
        let tx = build_tx(send_id, cmd, args, flags);
        if !receive_require {
            let mut txs: Vec<InterfacePayload> = Vec::new();
            txs.push(tx);
            match interface.send_data(txs.as_slice(), 0) {
                Ok(_) => Ok(Vec::new()),
                Err(e) => Err(ProtocolError::CommError(e)),
            }
        } else {
            let mut res = match interface.send_recv_data(tx, 0, RESPONSE_BUDGET_MS) {
                Ok(r) => r,
                Err(e) => {
                    return Err(ProtocolError::CommError(e));
                },
            };
            let first = classify_response(cmd, &res.data);
            if first == ResponseVerdict::Pending {
                // The ECU is processing the request: wait once more for the
                // real answer.
                match interface.recv_data(1, RESPONSE_BUDGET_MS) {
                    Ok(mut follow_up) => {
                        if follow_up.len() > 0 {
                            res = follow_up.remove(0);
                        }
                        // With no follow-up the pending frame itself is
                        // settled below, failing with the pending code
                        // decoded.
                    },
                    Err(e) => {
                        return Err(ProtocolError::CommError(e));
                    },
                }
            }
            settle_response::<Self::Error>(cmd, res.data)
        }
    }
}

/// The extended operations of the legacy keyword protocol that the facade
/// needs beyond the shared contract.
pub trait Kwp2000Session: ProtocolServer {
    /// Clears the ECU's stored fault codes.
    fn clear_errors(&self) -> ProtocolResult<()>;

    /// Reads the manufacturer identification block and returns its
    /// diagnostic-information field.
    fn read_diag_information(&self) -> ProtocolResult<u16>;

    /// Reads the environment (freeze-frame) bytes stored with a fault.
    fn read_dtc_env_data(&self, dtc: &DTC) -> ProtocolResult<Vec<u8>>;
}

/// The extended operations of the modern protocol that the facade needs
/// beyond the shared contract.
pub trait UdsSession: ProtocolServer {
    /// Clears the ECU's stored fault codes.
    fn clear_errors(&self) -> ProtocolResult<()>;

    /// Performs the data-by-identifier read of the variant identifier.
    fn read_variant_id(&self) -> ProtocolResult<u32>;
}

/// The session facade: a tagged union holding exactly one concrete protocol
/// session, owned exclusively. Every public operation dispatches to the
/// active variant. The state machine is Uninitialized (no value) → Active
/// (a constructed value) → Terminated (`kill_diag_server` was run).
pub enum DiagServer<K: Kwp2000Session, U: UdsSession> {
    KWP2000(K),
    UDS(U),
}

impl<K: Kwp2000Session, U: UdsSession> DiagServer<K, U> {
    /// Which protocol the active variant speaks.
    pub open spec fn spec_protocol(&self) -> DiagProtocol {
        match self {
            DiagServer::KWP2000(_) => DiagProtocol::KWP2000,
            DiagServer::UDS(_) => DiagProtocol::UDS,
        }
    }

    /// Whether the active session is open.
    pub open spec fn spec_in_session(&self) -> bool {
        match self {
            DiagServer::KWP2000(s) => s.spec_in_session(),
            DiagServer::UDS(s) => s.spec_in_session(),
        }
    }

    /// Transitions Uninitialized → Active by opening a session under the
    /// chosen protocol. On failure the transition aborts and no facade
    /// value exists.
    pub fn new<C: ComServer>(
        protocol: DiagProtocol,
        comm_server: &C,
        interface_type: InterfaceType,
        interface_cfg: InterfaceConfig,
        tx_flags: Option<Vec<PayloadFlag>>,
        diag_cfg: DiagCfg,
    ) -> (r: ProtocolResult<DiagServer<K, U>>)
        ensures
            r matches Ok(s) ==> s.spec_protocol() == protocol && s.spec_in_session(),
            r matches Ok(s) ==> (s matches DiagServer::KWP2000(inner) ==> call_ensures(
                K::start_diag_session::<C>,
                (comm_server, interface_type, interface_cfg, tx_flags, diag_cfg),
                Ok::<K, ProtocolError>(inner),
            )),
            r matches Ok(s) ==> (s matches DiagServer::UDS(inner) ==> call_ensures(
                U::start_diag_session::<C>,
                (comm_server, interface_type, interface_cfg, tx_flags, diag_cfg),
                Ok::<U, ProtocolError>(inner),
            )),
            r matches Err(e) ==> (protocol == DiagProtocol::KWP2000 ==> call_ensures(
                K::start_diag_session::<C>,
                (comm_server, interface_type, interface_cfg, tx_flags, diag_cfg),
                Err::<K, ProtocolError>(e),
            )),
            r matches Err(e) ==> (protocol == DiagProtocol::UDS ==> call_ensures(
                U::start_diag_session::<C>,
                (comm_server, interface_type, interface_cfg, tx_flags, diag_cfg),
                Err::<U, ProtocolError>(e),
            )),
    {
        Ok(
            match protocol {
                DiagProtocol::KWP2000 => DiagServer::KWP2000(
                    match K::start_diag_session(
                        comm_server,
                        interface_type,
                        interface_cfg,
                        tx_flags,
                        diag_cfg,
                    ) {
                        Ok(s) => s,
                        Err(e) => {
                            return Err(e);
                        },
                    },
                ),
                DiagProtocol::UDS => DiagServer::UDS(
                    match U::start_diag_session(
                        comm_server,
                        interface_type,
                        interface_cfg,
                        tx_flags,
                        diag_cfg,
                    ) {
                        Ok(s) => s,
                        Err(e) => {
                            return Err(e);
                        },
                    },
                ),
            },
        )
    }

    /// The name of the active protocol variant.
    pub fn get_name(&self) -> (r: &'static str)
        ensures
            self.spec_protocol() == DiagProtocol::KWP2000 ==> r@ == "KWP2000"@,
            self.spec_protocol() == DiagProtocol::UDS ==> r@ == "UDS"@,
    {
        match self {
            DiagServer::KWP2000(_) => "KWP2000",
            DiagServer::UDS(_) => "UDS",
        }
    }

    /// Transitions Active → Terminated: best-effort teardown of the active
    /// session. Safe to invoke from scoped teardown on any exit path.
    pub fn kill_diag_server(&mut self)
        ensures
            !final(self).spec_in_session(),
            final(self).spec_protocol() == old(self).spec_protocol(),
    {
        match self {
            DiagServer::KWP2000(s) => s.exit_diag_session(),
            DiagServer::UDS(s) => s.exit_diag_session(),
        }
    }

    /// Runs one command against the active session: sends opcode `cmd` with
    /// argument bytes `args` and returns the full response bytes.
    pub fn run_cmd(&mut self, cmd: u8, args: &[u8]) -> (r: ProtocolResult<Vec<u8>>)
        ensures
            *final(self) == *old(self),
            (*old(self)) matches DiagServer::KWP2000(s) ==> call_ensures(
                K::run_command,
                (&s, cmd, args),
                r,
            ),
            (*old(self)) matches DiagServer::UDS(s) ==> call_ensures(
                U::run_command,
                (&s, cmd, args),
                r,
            ),
    {
        match self {
            DiagServer::KWP2000(s) => s.run_command(cmd, args),
            DiagServer::UDS(s) => s.run_command(cmd, args),
        }
    }

    /// The variant-specific escape hatch: the legacy session exactly when
    /// the legacy protocol is active, and nothing otherwise.
    pub fn into_kwp(&mut self) -> (r: Option<&mut K>)
        ensures
            (r is Some) <==> old(self).spec_protocol() == DiagProtocol::KWP2000,
    {
        match self {
            DiagServer::KWP2000(s) => Some(s),
            DiagServer::UDS(_) => None,
        }
    }

    /// Reads the stored fault codes of the active session.
    pub fn read_errors(&self) -> (r: ProtocolResult<Vec<DTC>>)
        ensures
            self matches DiagServer::KWP2000(s) ==> call_ensures(K::read_errors, (&s,), r),
            self matches DiagServer::UDS(s) ==> call_ensures(U::read_errors, (&s,), r),
    {
        match self {
            DiagServer::KWP2000(s) => s.read_errors(),
            DiagServer::UDS(s) => s.read_errors(),
        }
    }

    /// Clears the stored fault codes of the active session.
    pub fn clear_errors(&self) -> (r: ProtocolResult<()>)
        ensures
            self matches DiagServer::KWP2000(s) ==> call_ensures(K::clear_errors, (&s,), r),
            self matches DiagServer::UDS(s) ==> call_ensures(U::clear_errors, (&s,), r),
    {
        match self {
            DiagServer::KWP2000(s) => s.clear_errors(),
            DiagServer::UDS(s) => s.clear_errors(),
        }
    }

    /// Reads the ECU's variant identifier. For the legacy protocol this is
    /// the manufacturer identification block's diagnostic-information field
    /// widened to 32 bits; for the modern protocol, a data-by-identifier
    /// read.
    pub fn get_variant_id(&self) -> (r: ProtocolResult<u32>)
        ensures
            self matches DiagServer::KWP2000(s) ==> (exists|ri: ProtocolResult<u16>|
                {
                    &&& #[trigger] call_ensures(K::read_diag_information, (&s,), ri)
                    &&& match ri {
                        Ok(x) => r == Ok::<u32, ProtocolError>(x as u32),
                        Err(e) => r == Err::<u32, ProtocolError>(e),
                    }
                }),
            self matches DiagServer::UDS(s) ==> call_ensures(U::read_variant_id, (&s,), r),
            self.spec_protocol() == DiagProtocol::KWP2000 ==> (r matches Ok(v) ==> v
                <= 0xFFFF),
    {
        match self {
            DiagServer::KWP2000(s) => match s.read_diag_information() {
                Ok(x) => Ok(x as u32),
                Err(e) => Err(e),
            },
            DiagServer::UDS(s) => s.read_variant_id(),
        }
    }

    /// Reads the environment (freeze-frame) bytes stored with `dtc`. Only
    /// the legacy protocol implements this; the modern protocol path
    /// reports a free-text failure.
    pub fn get_dtc_env_data(&self, dtc: &DTC) -> (r: ProtocolResult<Vec<u8>>)
        ensures
            self matches DiagServer::KWP2000(s) ==> call_ensures(
                K::read_dtc_env_data,
                (&s, dtc),
                r,
            ),
            self.spec_protocol() == DiagProtocol::UDS ==> (r matches Err(
                ProtocolError::CustomError(m),
            ) && m@ == "Not implemented (get_dtc_env_data)"@),
    {
        match self {
            DiagServer::KWP2000(s) => s.read_dtc_env_data(dtc),
            DiagServer::UDS(_) => Err(
                ProtocolError::CustomError(String::from_str("Not implemented (get_dtc_env_data)")),
            ),
        }
    }
}

} // verus!
