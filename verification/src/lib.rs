//! Protocol-abstraction layer for automotive ECU diagnostic sessions.
//!
//! The crate unifies two request/response diagnostic protocols (a legacy
//! keyword protocol and its modern successor) behind one session facade:
//! an error taxonomy, the capability interfaces a protocol implementation
//! must satisfy, the shared request/response execution algorithm (negative
//! responses, "response pending" continuation, correlation by positive
//! response echo), and the variant-dispatching session facade.

pub mod commands;
pub mod dtc;
pub mod errors;
pub mod iface;
pub mod server;
pub mod text;
