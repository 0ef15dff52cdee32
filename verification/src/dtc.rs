//! The diagnostic trouble code model: a snapshot of one stored fault as the
//! ECU reported it. Pure data; the only behavior is display formatting.

use vstd::prelude::*;
use vstd::string::StringExecFns;
use crate::text::spec_bool_text;

verus! {

/// The mutually exclusive lifecycle stage of a fault code as the ECU
/// reports it.
#[derive(Debug, Copy, Clone, PartialEq, Eq, Structural)]
pub enum DTCState {
    /// The fault is not currently raised.
    Inactive,
    /// The fault is confirmed and stored.
    Stored,
    /// The fault was seen but is not yet confirmed.
    Pending,
    /// The fault is permanent and cannot be cleared by a tester.
    Permanent,
}

impl DTCState {
    /// The display name of the stage. The not-raised stage displays as
    /// `"None"`, the name ECUs and tools commonly report for it.
    pub open spec fn spec_name(&self) -> Seq<char> {
        match self {
            DTCState::Inactive => "None"@,
            DTCState::Stored => "Stored"@,
            DTCState::Pending => "Pending"@,
            DTCState::Permanent => "Permanent"@,
        }
    }

    /// Returns the display name of the stage.
    pub fn name(&self) -> (r: &'static str)
        ensures
            r@ == self.spec_name(),
    {
        match self {
            DTCState::Inactive => "None",
            DTCState::Stored => "Stored",
            DTCState::Pending => "Pending",
            DTCState::Permanent => "Permanent",
        }
    }
}

/// One stored fault, produced fresh on every read of the ECU's fault memory.
/// A value is a snapshot, not a handle: it has no identity across reads.
#[derive(Debug, Clone)]
pub struct DTC {
    /// The fault's text description (for instance a standard fault number).
    pub error: String,
    /// The fault's lifecycle stage.
    pub state: DTCState,
    /// Whether the fault lights the check-engine lamp.
    pub check_engine_on: bool,
    /// The fault's numeric code as the ECU reports it.
    pub id: u32,
}

impl DTC {
    /// The display text:
    /// `"{error} - State: {state}, Check engine light on?: {check_engine_on}"`.
    pub open spec fn spec_text(&self) -> Seq<char> {
        self.error@ + " - State: "@ + self.state.spec_name()
            + ", Check engine light on?: "@ + spec_bool_text(self.check_engine_on)
    }

    /// Renders the fault for display.
    pub fn get_text(&self) -> (r: String)
        ensures
            r@ == self.spec_text(),
    {
        let mut s = self.error.clone();
        s.append(" - State: ");
        s.append(self.state.name());
        s.append(", Check engine light on?: ");
        s.append(crate::text::bool_text(self.check_engine_on));
        s
    }
}

} // verus!
