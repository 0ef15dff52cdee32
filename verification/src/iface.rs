//! The interface the session core needs from the transport layer: addressed
//! payloads, per-message flags, and the send/receive primitives. The layer
//! that actually frames and transmits over a vehicle bus implements these
//! traits outside this crate; the core promises nothing about what a bus
//! returns and states only what it does with whatever came back.

use vstd::prelude::*;
use crate::text::{spec_dec, u64_to_dec};
use vstd::string::StringExecFns;

verus! {

/// A failure reported by the transport server.
#[derive(Debug, Clone)]
pub struct ComServerError {
    pub err_code: u32,
    pub err_desc: String,
}

impl ComServerError {
    /// The failure's own message text.
    pub open spec fn spec_text(&self) -> Seq<char> {
        "Communication API error "@ + spec_dec(self.err_code as nat) + " ("@ + self.err_desc@
            + ")"@
    }

    /// Renders the failure's message text.
    pub fn get_text(&self) -> (r: String)
        ensures
            r@ == self.spec_text(),
    {
        let mut s = String::from_str("Communication API error ");
        s.append(u64_to_dec(self.err_code as u64).as_str());
        s.append(" (");
        s.append(self.err_desc.as_str());
        s.append(")");
        s
    }
}

/// A per-message framing flag applied to an outgoing payload.
#[derive(Debug, Copy, Clone, PartialEq, Eq, Structural)]
pub enum PayloadFlag {
    /// Pad every transmitted frame to its full length.
    IsotpPadFrame,
    /// Use extended addressing on the segmented-transport layer.
    IsotpExtAddressing,
}

/// Which kind of channel the transport server should open.
#[derive(Debug, Copy, Clone, PartialEq, Eq, Structural)]
pub enum InterfaceType {
    /// A raw frame channel.
    Can,
    /// A segmented-transport channel carrying whole diagnostic payloads.
    IsoTp,
}

/// Channel parameters handed to the transport server when an interface is
/// opened. Opaque to the session core: it only passes them through.
#[derive(Debug, Copy, Clone)]
pub struct InterfaceConfig {
    pub baud_rate: u32,
    pub block_size: u32,
    pub separation_time_min: u32,
}

/// An addressed payload: what is sent to, or was received from, the bus.
#[derive(Debug, Clone)]
pub struct InterfacePayload {
    pub id: u32,
    pub data: Vec<u8>,
    pub flags: Vec<PayloadFlag>,
}

impl InterfacePayload {
    /// Builds a payload addressed to `id` carrying `data`, with no flags.
    pub fn new(id: u32, data: &[u8]) -> (r: InterfacePayload)
        ensures
            r.id == id,
            r.data@ == data@,
            r.flags@ == Seq::<PayloadFlag>::empty(),
    {
        InterfacePayload { id, data: vstd::slice::slice_to_vec(data), flags: Vec::new() }
    }
}

/// The send/receive primitives the session core requires of an open,
/// addressed channel. A bus may answer anything or nothing, so the methods
/// promise nothing about the returned payloads.
pub trait Interface {
    /// Transmits the payloads, waiting up to `timeout_ms` (0: no wait for
    /// confirmation).
    fn send_data(&mut self, payloads: &[InterfacePayload], timeout_ms: u32) -> Result<
        (),
        ComServerError,
    >;

    /// Transmits one payload and waits up to `write_timeout_ms` for it to
    /// leave, then up to `read_timeout_ms` for one reply.
    fn send_recv_data(
        &mut self,
        payload: InterfacePayload,
        write_timeout_ms: u32,
        read_timeout_ms: u32,
    ) -> Result<InterfacePayload, ComServerError>;

    /// Waits up to `timeout_ms` for up to `max_msgs` further payloads. An
    /// `Ok` holds whatever arrived, possibly nothing.
    fn recv_data(&mut self, max_msgs: usize, timeout_ms: u32) -> Result<
        Vec<InterfacePayload>,
        ComServerError,
    >;
}

/// The handle to the transport server from which a protocol implementation
/// opens its addressed channel.
pub trait ComServer {
    type Iface: Interface;

    /// Opens a channel of the given kind with the given parameters.
    fn open_interface(&self, interface_type: InterfaceType, cfg: &InterfaceConfig) -> Result<
        Self::Iface,
        ComServerError,
    >;
}

} // verus!
