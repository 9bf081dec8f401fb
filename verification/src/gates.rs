//! Interpretation of gate names.
//!
//! This module is the single place a gate name is interpreted; supporting
//! another gate is one more entry here. An unknown name becomes an
//! `UnsupportedGate` error at dispatch, never a silent drop.

use vstd::prelude::*;
use crate::model::{RotationGateKind, SingleGateKind, TwoGateKind};

verus! {

/// The shape of instruction a supported gate name produces; the argument
/// arity follows from this shape.
#[derive(Debug, Clone, Copy, PartialEq, Eq, Structural)]
pub enum GateKind {
    /// A parameterless one-operand gate.
    Single(SingleGateKind),
    /// A one-operand rotation taking one angle parameter.
    Rotation(RotationGateKind),
    /// A two-operand gate, control first.
    Two(TwoGateKind),
    /// The machine-state dump; no operands.
    DumpMachine,
}

/// The number of qubit arguments a gate kind takes.
pub open spec fn spec_arity(g: GateKind) -> nat {
    match g {
        GateKind::Single(_) => 1,
        GateKind::Rotation(_) => 1,
        GateKind::Two(_) => 2,
        GateKind::DumpMachine => 0,
    }
}

/// Ties each supported gate name to the kind it produces; an unknown name
/// gets `None`.
pub open spec fn spec_gate_of(name: Seq<char>) -> Option<GateKind> {
    if name == "h"@ {
        Some(GateKind::Single(SingleGateKind::H))
    } else if name == "x"@ {
        Some(GateKind::Single(SingleGateKind::X))
    } else if name == "y"@ {
        Some(GateKind::Single(SingleGateKind::Y))
    } else if name == "z"@ {
        Some(GateKind::Single(SingleGateKind::Z))
    } else if name == "s"@ {
        Some(GateKind::Single(SingleGateKind::S))
    } else if name == "sdg"@ {
        Some(GateKind::Single(SingleGateKind::SAdj))
    } else if name == "t"@ {
        Some(GateKind::Single(SingleGateKind::T))
    } else if name == "tdg"@ {
        Some(GateKind::Single(SingleGateKind::TAdj))
    } else if name == "reset"@ {
        Some(GateKind::Single(SingleGateKind::Reset))
    } else if name == "rx"@ {
        Some(GateKind::Rotation(RotationGateKind::Rx))
    } else if name == "ry"@ {
        Some(GateKind::Rotation(RotationGateKind::Ry))
    } else if name == "rz"@ {
        Some(GateKind::Rotation(RotationGateKind::Rz))
    } else if name == "cx"@ {
        Some(GateKind::Two(TwoGateKind::Cx))
    } else if name == "cz"@ {
        Some(GateKind::Two(TwoGateKind::Cz))
    } else if name == "dump_machine"@ {
        Some(GateKind::DumpMachine)
    } else {
        None
    }
}

/// Relies on std's `str` equality: it returns true exactly when the two
/// strings hold the same sequence of characters.
#[verifier::external_body]
fn str_eq(a: &str, b: &str) -> (r: bool)
    ensures
        r == (a@ == b@),
{
    a == b
}

/// Reveals every gate-name literal of the mapping, so that the names are
/// known to be pairwise distinct.
pub(crate) proof fn reveal_gate_names()
    ensures
        "h"@ =~= seq!['h'],
        "x"@ =~= seq!['x'],
        "y"@ =~= seq!['y'],
        "z"@ =~= seq!['z'],
        "s"@ =~= seq!['s'],
        "sdg"@ =~= seq!['s', 'd', 'g'],
        "t"@ =~= seq!['t'],
        "tdg"@ =~= seq!['t', 'd', 'g'],
        "reset"@ =~= seq!['r', 'e', 's', 'e', 't'],
        "rx"@ =~= seq!['r', 'x'],
        "ry"@ =~= seq!['r', 'y'],
        "rz"@ =~= seq!['r', 'z'],
        "cx"@ =~= seq!['c', 'x'],
        "cz"@ =~= seq!['c', 'z'],
        "dump_machine"@ =~= seq![
            'd',
            'u',
            'm',
            'p',
            '_',
            'm',
            'a',
            'c',
            'h',
            'i',
            'n',
            'e',
        ],
{
    reveal_strlit("h");
    reveal_strlit("x");
    reveal_strlit("y");
    reveal_strlit("z");
    reveal_strlit("s");
    reveal_strlit("sdg");
    reveal_strlit("t");
    reveal_strlit("tdg");
    reveal_strlit("reset");
    reveal_strlit("rx");
    reveal_strlit("ry");
    reveal_strlit("rz");
    reveal_strlit("cx");
    reveal_strlit("cz");
    reveal_strlit("dump_machine");
}

/// Looks up the kind of instruction a gate name yields.
pub fn gate_lookup(name: &str) -> (g: Option<GateKind>)
    ensures
        g == spec_gate_of(name@),
{
    proof {
        reveal_gate_names();
    }
    if str_eq(name, "h") {
        Some(GateKind::Single(SingleGateKind::H))
    } else if str_eq(name, "x") {
        Some(GateKind::Single(SingleGateKind::X))
    } else if str_eq(name, "y") {
        Some(GateKind::Single(SingleGateKind::Y))
    } else if str_eq(name, "z") {
        Some(GateKind::Single(SingleGateKind::Z))
    } else if str_eq(name, "s") {
        Some(GateKind::Single(SingleGateKind::S))
    } else if str_eq(name, "sdg") {
        Some(GateKind::Single(SingleGateKind::SAdj))
    } else if str_eq(name, "t") {
        Some(GateKind::Single(SingleGateKind::T))
    } else if str_eq(name, "tdg") {
        Some(GateKind::Single(SingleGateKind::TAdj))
    } else if str_eq(name, "reset") {
        Some(GateKind::Single(SingleGateKind::Reset))
    } else if str_eq(name, "rx") {
        Some(GateKind::Rotation(RotationGateKind::Rx))
    } else if str_eq(name, "ry") {
        Some(GateKind::Rotation(RotationGateKind::Ry))
    } else if str_eq(name, "rz") {
        Some(GateKind::Rotation(RotationGateKind::Rz))
    } else if str_eq(name, "cx") {
        Some(GateKind::Two(TwoGateKind::Cx))
    } else if str_eq(name, "cz") {
        Some(GateKind::Two(TwoGateKind::Cz))
    } else if str_eq(name, "dump_machine") {
        Some(GateKind::DumpMachine)
    } else {
        None
    }
}

/// The number of qubit arguments a gate kind takes.
pub fn arity_of(g: GateKind) -> (n: usize)
    ensures
        n == spec_arity(g),
{
    match g {
        GateKind::Single(_) => 1,
        GateKind::Rotation(_) => 1,
        GateKind::Two(_) => 2,
        GateKind::DumpMachine => 0,
    }
}

} // verus!
