//! The semantic model: the accumulated output of one translation unit.

use vstd::prelude::*;

verus! {

/// The kinds of one-operand gates that take no parameter.
#[derive(Debug, Clone, Copy, PartialEq, Eq, Structural)]
pub enum SingleGateKind {
    H,
    X,
    Y,
    Z,
    S,
    SAdj,
    T,
    TAdj,
    Reset,
}

/// The kinds of one-operand rotation gates; each takes one angle parameter.
#[derive(Debug, Clone, Copy, PartialEq, Eq, Structural)]
pub enum RotationGateKind {
    Rx,
    Ry,
    Rz,
}

/// The kinds of two-operand gates; the first operand is the control.
#[derive(Debug, Clone, Copy, PartialEq, Eq, Structural)]
pub enum TwoGateKind {
    Cx,
    Cz,
}

/// One translated instruction; the model never alters one after appending
/// it.
///
/// Operands are canonical register names. A rotation carries its angle as
/// the parameter text the front-end handed over; evaluating that expression
/// is the emitter's concern, not this library's.
#[derive(Debug, PartialEq, Eq)]
pub enum Instruction {
    /// A parameterless one-operand gate and its target.
    SingleQubit(SingleGateKind, String),
    /// A two-operand gate: its control, then its target.
    TwoQubit(TwoGateKind, String, String),
    /// A rotation: its angle text, then its target.
    Rotation(RotationGateKind, String, String),
    /// A measurement: the source qubit, then the destination bit.
    Measurement(String, String),
    /// A dump of the machine state; no operands.
    DumpMachine,
}

/// The mathematical value of an `Instruction`.
pub enum InstructionView {
    SingleQubit(SingleGateKind, Seq<char>),
    TwoQubit(TwoGateKind, Seq<char>, Seq<char>),
    Rotation(RotationGateKind, Seq<char>, Seq<char>),
    Measurement(Seq<char>, Seq<char>),
    DumpMachine,
}

impl View for Instruction {
    type V = InstructionView;

    open spec fn view(&self) -> InstructionView {
        match self {
            Instruction::SingleQubit(kind, target) => InstructionView::SingleQubit(*kind, target@),
            Instruction::TwoQubit(kind, control, target) => InstructionView::TwoQubit(
                *kind,
                control@,
                target@,
            ),
            Instruction::Rotation(kind, angle, target) => InstructionView::Rotation(
                *kind,
                angle@,
                target@,
            ),
            Instruction::Measurement(qubit, target) => InstructionView::Measurement(
                qubit@,
                target@,
            ),
            Instruction::DumpMachine => InstructionView::DumpMachine,
        }
    }
}

impl DeepView for Instruction {
    type V = InstructionView;

    open spec fn deep_view(&self) -> InstructionView {
        self.view()
    }
}

/// One entry of the register table. A quantum register declaration expands
/// into one entry per slot; a classical register declaration stays a single
/// entry that records the whole register's size — the asymmetry is
/// deliberate.
#[derive(Debug, PartialEq, Eq)]
pub enum Register {
    /// One quantum slot: the register name and the slot's index.
    Quantum { name: String, index: u64 },
    /// One whole classical register: its name and its size.
    Classical { name: String, size: u64 },
}

/// The mathematical value of a `Register` entry.
pub enum RegisterView {
    Quantum { name: Seq<char>, index: int },
    Classical { name: Seq<char>, size: nat },
}

impl View for Register {
    type V = RegisterView;

    open spec fn view(&self) -> RegisterView {
        match self {
            Register::Quantum { name, index } => (RegisterView::Quantum {
                name: name@,
                index: *index as int,
            }),
            Register::Classical { name, size } => (RegisterView::Classical {
                name: name@,
                size: *size as nat,
            }),
        }
    }
}

impl DeepView for Register {
    type V = RegisterView;

    open spec fn deep_view(&self) -> RegisterView {
        self.view()
    }
}

/// The accumulated output of one translation unit: its name, the register
/// table and the instruction sequence. Both sequences keep the order the
/// program declared, and that order carries meaning downstream.
#[derive(Debug, PartialEq, Eq)]
pub struct SemanticModel {
    pub name: String,
    pub registers: Vec<Register>,
    pub instructions: Vec<Instruction>,
}

/// The mathematical value of a `SemanticModel`.
pub struct SemanticModelView {
    pub name: Seq<char>,
    pub registers: Seq<RegisterView>,
    pub instructions: Seq<InstructionView>,
}

impl View for SemanticModel {
    type V = SemanticModelView;

    open spec fn view(&self) -> SemanticModelView {
        SemanticModelView {
            name: self.name@,
            registers: self.registers.deep_view(),
            instructions: self.instructions.deep_view(),
        }
    }
}

impl SemanticModel {
    /// A fresh model of the given name, with no registers and no
    /// instructions yet.
    pub fn new(name: String) -> (m: SemanticModel)
        ensures
            m@ == (SemanticModelView {
                name: name@,
                registers: Seq::<RegisterView>::empty(),
                instructions: Seq::<InstructionView>::empty(),
            }),
    {
        let m = SemanticModel { name, registers: Vec::new(), instructions: Vec::new() };
        proof {
            assert(m.registers.deep_view() =~= Seq::<RegisterView>::empty());
            assert(m.instructions.deep_view() =~= Seq::<InstructionView>::empty());
        }
        m
    }

    /// Appends one register entry to the table.
    pub fn add_reg(&mut self, reg: Register)
        ensures
            final(self)@ == (SemanticModelView {
                registers: old(self)@.registers.push(reg@),
                ..old(self)@
            }),
    {
        let ghost previous = self.registers.deep_view();
        self.registers.push(reg);
        proof {
            assert(self.registers.deep_view() =~= previous.push(reg@));
        }
    }

    /// Appends one instruction to the sequence.
    pub fn add_inst(&mut self, inst: Instruction)
        ensures
            final(self)@ == (SemanticModelView {
                instructions: old(self)@.instructions.push(inst@),
                ..old(self)@
            }),
    {
        let ghost previous = self.instructions.deep_view();
        self.instructions.push(inst);
        proof {
            assert(self.instructions.deep_view() =~= previous.push(inst@));
        }
    }
}

} // verus!
