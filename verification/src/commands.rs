//! Capability interfaces that a protocol's command set and negative-response
//! decoder must satisfy, and the ordered caution rating of a command.

use vstd::prelude::*;
use vstd::std_specs::cmp::PartialOrdSpec;
use core::cmp::Ordering;

verus! {

/// How risky it is to execute a command against a live ECU. The levels are
/// totally ordered: `Harmless < Warn < Alert`.
#[derive(Debug, Copy, Clone, PartialEq, Eq, Ord, Structural)]
pub enum CautionLevel {
    /// No adverse effect on the ECU.
    Harmless,
    /// Might cause unpredictable behavior.
    Warn,
    /// Dangerous: run only with full knowledge of the consequences.
    Alert,
}

impl CautionLevel {
    /// The level's position in the order: `Harmless` lowest, `Alert` highest.
    pub open spec fn spec_level(&self) -> nat {
        match self {
            CautionLevel::Harmless => 0,
            CautionLevel::Warn => 1,
            CautionLevel::Alert => 2,
        }
    }

    /// Returns the level's position in the order.
    pub fn level(&self) -> (r: u8)
        ensures
            r as nat == self.spec_level(),
    {
        match self {
            CautionLevel::Harmless => 0,
            CautionLevel::Warn => 1,
            CautionLevel::Alert => 2,
        }
    }
}

impl PartialOrd for CautionLevel {
    fn partial_cmp(&self, other: &CautionLevel) -> (r: Option<Ordering>) {
        let a = self.level();
        let b = other.level();
        if a < b {
            Some(Ordering::Less)
        } else if a == b {
            Some(Ordering::Equal)
        } else {
            Some(Ordering::Greater)
        }
    }
}

impl vstd::std_specs::cmp::PartialOrdSpecImpl for CautionLevel {
    open spec fn obeys_partial_cmp_spec() -> bool {
        true
    }

    open spec fn partial_cmp_spec(&self, other: &CautionLevel) -> Option<Ordering> {
        if self.spec_level() < other.spec_level() {
            Some(Ordering::Less)
        } else if self.spec_level() == other.spec_level() {
            Some(Ordering::Equal)
        } else {
            Some(Ordering::Greater)
        }
    }
}

/// Law: the caution levels are totally ordered, with
/// `Harmless < Warn < Alert` under every comparison: comparing any two levels
/// always yields an answer, and that answer is exactly the order of their
/// positions.
pub proof fn lemma_caution_level_total_order(a: CautionLevel, b: CautionLevel)
    ensures
        a.partial_cmp_spec(&b) is Some,
        a.partial_cmp_spec(&b) == Some(Ordering::Less) <==> a.spec_level() < b.spec_level(),
        a.partial_cmp_spec(&b) == Some(Ordering::Equal) <==> a == b,
        a.partial_cmp_spec(&b) == Some(Ordering::Greater) <==> a.spec_level() > b.spec_level(),
        CautionLevel::Harmless.spec_level() < CautionLevel::Warn.spec_level()
            < CautionLevel::Alert.spec_level(),
{
}

/// Anything a caller can pick from a command table: it converts to the single
/// opcode byte that goes on the wire and carries human-readable text.
pub trait Selectable: Into<u8> {
    /// A human description of the command.
    fn get_desc(&self) -> String;

    /// The command's short name.
    fn get_name(&self) -> String;
}

/// A command of a protocol's command set: selectable, rated for risk, and
/// enumerable so that callers can build command pickers or safety gates.
pub trait ECUCommand: Selectable {
    /// How risky executing this command is.
    fn get_caution_level(&self) -> CautionLevel;

    /// The full command set of the protocol.
    fn get_cmd_list() -> Vec<Self>;
}

/// A protocol's negative-response decoder. Decoding is total: every byte
/// value, known or not, decodes to some description.
pub trait CommandError: Sized {
    /// The error that the protocol assigns to negative-response byte `b`.
    spec fn spec_from_byte(b: u8) -> Self;

    /// The description of this error.
    spec fn spec_desc(&self) -> Seq<char>;

    /// The remediation hint of this error, if the protocol gives one.
    spec fn spec_help(&self) -> Option<Seq<char>>;

    /// A human description of what went wrong.
    fn get_desc(&self) -> (r: String)
        ensures
            r@ == self.spec_desc(),
    ;

    /// A hint on how to fix it, where the protocol defines one.
    fn get_help(&self) -> (r: Option<String>)
        ensures
            match r {
                Some(h) => self.spec_help() == Some(h@),
                None => self.spec_help() is None,
            },
    ;

    /// Decodes a raw negative-response byte.
    fn from_byte(b: u8) -> (r: Self)
        ensures
            r == Self::spec_from_byte(b),
    ;
}

} // verus!
