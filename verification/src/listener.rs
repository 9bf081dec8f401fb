//! The instruction dispatcher and the translation driver.
//!
//! A `QasmListener` owns the growing semantic model. Each node of the
//! parsed program is dispatched exactly once, in program order: register
//! declarations extend the register table, gate applications and
//! measurements append instructions, and any other node kind is skipped.

use vstd::prelude::*;
use crate::arguments::{
    lemma_resolve_all_ok, resolve_arguments, spec_qir_name, spec_resolve, spec_resolve_all,
    spec_slot_of, QubitRefView,
};
use crate::ast::{Argument, ArgumentView, AstNode, AstNodeView};
use crate::errors::{ErrorAt, ErrorAtView, TranslateError, TranslateErrorView};
use crate::gates::{arity_of, gate_lookup, reveal_gate_names, spec_arity, spec_gate_of, GateKind};
use crate::model::{
    Instruction, InstructionView, Register, RegisterView, RotationGateKind, SemanticModel,
    SemanticModelView, SingleGateKind, TwoGateKind,
};

verus! {

/// The register entries a quantum register declaration expands into: one
/// entry per slot, indices increasing from zero.
pub open spec fn spec_quantum_entries(name: Seq<char>, size: nat) -> Seq<RegisterView> {
    Seq::new(size, |i: int| (RegisterView::Quantum { name: name, index: i }))
}

/// The model after appending one instruction; registers and name unchanged.
pub open spec fn spec_with_instruction(m: SemanticModelView, i: InstructionView) -> SemanticModelView {
    SemanticModelView { instructions: m.instructions.push(i), ..m }
}

/// What dispatching one gate application does to the model: look the name
/// up, resolve the arguments at the mapped arity, and append the matching
/// instruction — or fail, leaving the model for the caller to keep
/// unchanged. A rotation takes exactly one angle parameter; any other
/// parameter-list length is an arity mismatch on the parameter channel.
pub open spec fn spec_gate_step(
    m: SemanticModelView,
    name: Seq<char>,
    args: Seq<ArgumentView>,
    params: Seq<Seq<char>>,
) -> Result<SemanticModelView, TranslateErrorView> {
    match spec_gate_of(name) {
        None => Err(TranslateErrorView::UnsupportedGate(name)),
        Some(g) => match spec_resolve(args, spec_arity(g)) {
            Err(e) => Err(e),
            Ok(slots) => match g {
                GateKind::Single(k) => Ok(
                    spec_with_instruction(
                        m,
                        InstructionView::SingleQubit(k, spec_qir_name(slots[0])),
                    ),
                ),
                GateKind::Rotation(k) => if params.len() != 1 {
                    Err(
                        (TranslateErrorView::ArityMismatch {
                            expected: 1,
                            actual: params.len() as int,
                        }),
                    )
                } else {
                    Ok(
                        spec_with_instruction(
                            m,
                            InstructionView::Rotation(k, params[0], spec_qir_name(slots[0])),
                        ),
                    )
                },
                GateKind::Two(k) => Ok(
                    spec_with_instruction(
                        m,
                        InstructionView::TwoQubit(
                            k,
                            spec_qir_name(slots[0]),
                            spec_qir_name(slots[1]),
                        ),
                    ),
                ),
                GateKind::DumpMachine => Ok(
                    spec_with_instruction(m, InstructionView::DumpMachine),
                ),
            },
        },
    }
}

/// What dispatching one measurement does: each side resolves as a single
/// register slot — the source first — and a measurement instruction over
/// the two canonical names is appended.
pub open spec fn spec_measure_step(
    m: SemanticModelView,
    qubit: ArgumentView,
    target: ArgumentView,
) -> Result<SemanticModelView, TranslateErrorView> {
    if qubit is Register {
        Err(TranslateErrorView::TypeMismatch(qubit->Register_0))
    } else if target is Register {
        Err(TranslateErrorView::TypeMismatch(target->Register_0))
    } else {
        Ok(
            spec_with_instruction(
                m,
                InstructionView::Measurement(
                    spec_qir_name(spec_slot_of(qubit)),
                    spec_qir_name(spec_slot_of(target)),
                ),
            ),
        )
    }
}

/// What dispatching one node does to the model: the new model, or the
/// failure that leaves it unchanged. A node kind outside the instruction
/// set is a no-op, not an error: the program may legally contain it.
pub open spec fn spec_node_step(m: SemanticModelView, n: AstNodeView) -> Result<
    SemanticModelView,
    TranslateErrorView,
> {
    match n {
        AstNodeView::QuantumRegisterDecl(name, size) => Ok(
            (SemanticModelView { registers: m.registers + spec_quantum_entries(name, size), ..m }),
        ),
        AstNodeView::ClassicalRegisterDecl(name, size) => Ok(
            (SemanticModelView {
                registers: m.registers.push((RegisterView::Classical { name, size })),
                ..m
            }),
        ),
        AstNodeView::ApplyGate(name, args, params) => spec_gate_step(m, name, args, params),
        AstNodeView::Measure(qubit, target) => spec_measure_step(m, qubit, target),
        AstNodeView::Other(_) => Ok(m),
    }
}

/// Walks one statement group from node position `i` on, in order: each
/// failing node is skipped and its failure collected with its position;
/// each succeeding node steps the model.
pub open spec fn spec_run_nodes(
    m: SemanticModelView,
    nodes: Seq<AstNodeView>,
    group: int,
    i: int,
) -> (SemanticModelView, Seq<ErrorAtView>)
    decreases nodes.len(),
{
    if nodes.len() == 0 {
        (m, Seq::empty())
    } else {
        let head = spec_node_step(m, nodes[0]);
        let stepped = if head is Ok {
            head->Ok_0
        } else {
            m
        };
        let collected = if head is Ok {
            Seq::<ErrorAtView>::empty()
        } else {
            seq![(ErrorAtView { group: group, node: i, error: head->Err_0 })]
        };
        let rest = spec_run_nodes(stepped, nodes.drop_first(), group, i + 1);
        (rest.0, collected + rest.1)
    }
}

/// Walks the statement groups from group index `g` on, in file order.
pub open spec fn spec_run_groups(
    m: SemanticModelView,
    groups: Seq<Seq<AstNodeView>>,
    g: int,
) -> (SemanticModelView, Seq<ErrorAtView>)
    decreases groups.len(),
{
    if groups.len() == 0 {
        (m, Seq::empty())
    } else {
        let first = spec_run_nodes(m, groups[0], g, 0);
        let rest = spec_run_groups(first.0, groups.drop_first(), g + 1);
        (rest.0, first.1 + rest.1)
    }
}

/// Walks a parsed program and accumulates the semantic model.
pub struct QasmListener {
    pub model: SemanticModel,
}

impl View for QasmListener {
    type V = SemanticModelView;

    open spec fn view(&self) -> SemanticModelView {
        self.model@
    }
}

impl QasmListener {
    /// A listener over a fresh model of the given name.
    pub fn new(name: String) -> (l: QasmListener)
        ensures
            l@ == (SemanticModelView {
                name: name@,
                registers: Seq::<RegisterView>::empty(),
                instructions: Seq::<InstructionView>::empty(),
            }),
    {
        QasmListener { model: SemanticModel::new(name) }
    }

    /// Appends a controlled-X instruction: control first, then target.
    pub fn cx(&mut self, control: String, target: String)
        ensures
            final(self)@ == spec_with_instruction(
                old(self)@,
                InstructionView::TwoQubit(TwoGateKind::Cx, control@, target@),
            ),
    {
        self.model.add_inst(Instruction::TwoQubit(TwoGateKind::Cx, control, target));
    }

    /// Appends a controlled-Z instruction: control first, then target.
    pub fn cz(&mut self, control: String, target: String)
        ensures
            final(self)@ == spec_with_instruction(
                old(self)@,
                InstructionView::TwoQubit(TwoGateKind::Cz, control@, target@),
            ),
    {
        self.model.add_inst(Instruction::TwoQubit(TwoGateKind::Cz, control, target));
    }

    /// Appends a Hadamard instruction on the given target.
    pub fn h(&mut self, qubit: String)
        ensures
            final(self)@ == spec_with_instruction(
                old(self)@,
                InstructionView::SingleQubit(SingleGateKind::H, qubit@),
            ),
    {
        self.model.add_inst(Instruction::SingleQubit(SingleGateKind::H, qubit));
    }

    /// Appends a measurement of `qubit` into `target`.
    pub fn m(&mut self, qubit: String, target: String)
        ensures
            final(self)@ == spec_with_instruction(
                old(self)@,
                InstructionView::Measurement(qubit@, target@),
            ),
    {
        self.model.add_inst(Instruction::Measurement(qubit, target));
    }

    /// Appends a reset instruction on the given target.
    pub fn reset(&mut self, qubit: String)
        ensures
            final(self)@ == spec_with_instruction(
                old(self)@,
                InstructionView::SingleQubit(SingleGateKind::Reset, qubit@),
            ),
    {
        self.model.add_inst(Instruction::SingleQubit(SingleGateKind::Reset, qubit));
    }

    /// Appends an X-rotation by the given angle text on the given target.
    pub fn rx(&mut self, theta: String, qubit: String)
        ensures
            final(self)@ == spec_with_instruction(
                old(self)@,
                InstructionView::Rotation(RotationGateKind::Rx, theta@, qubit@),
            ),
    {
        self.model.add_inst(Instruction::Rotation(RotationGateKind::Rx, theta, qubit));
    }

    /// Appends a Y-rotation by the given angle text on the given target.
    pub fn ry(&mut self, theta: String, qubit: String)
        ensures
            final(self)@ == spec_with_instruction(
                old(self)@,
                InstructionView::Rotation(RotationGateKind::Ry, theta@, qubit@),
            ),
    {
        self.model.add_inst(Instruction::Rotation(RotationGateKind::Ry, theta, qubit));
    }

    /// Appends a Z-rotation by the given angle text on the given target.
    pub fn rz(&mut self, theta: String, qubit: String)
        ensures
            final(self)@ == spec_with_instruction(
                old(self)@,
                InstructionView::Rotation(RotationGateKind::Rz, theta@, qubit@),
            ),
    {
        self.model.add_inst(Instruction::Rotation(RotationGateKind::Rz, theta, qubit));
    }

    /// Appends an S instruction on the given target.
    pub fn s(&mut self, qubit: String)
        ensures
            final(self)@ == spec_with_instruction(
                old(self)@,
                InstructionView::SingleQubit(SingleGateKind::S, qubit@),
            ),
    {
        self.model.add_inst(Instruction::SingleQubit(SingleGateKind::S, qubit));
    }

    /// Appends an S-adjoint instruction on the given target.
    pub fn s_adj(&mut self, qubit: String)
        ensures
            final(self)@ == spec_with_instruction(
                old(self)@,
                InstructionView::SingleQubit(SingleGateKind::SAdj, qubit@),
            ),
    {
        self.model.add_inst(Instruction::SingleQubit(SingleGateKind::SAdj, qubit));
    }

    /// Appends a T instruction on the given target.
    pub fn t(&mut self, qubit: String)
        ensures
            final(self)@ == spec_with_instruction(
                old(self)@,
                InstructionView::SingleQubit(SingleGateKind::T, qubit@),
            ),
    {
        self.model.add_inst(Instruction::SingleQubit(SingleGateKind::T, qubit));
    }

    /// Appends a T-adjoint instruction on the given target.
    pub fn t_adj(&mut self, qubit: String)
        ensures
            final(self)@ == spec_with_instruction(
                old(self)@,
                InstructionView::SingleQubit(SingleGateKind::TAdj, qubit@),
            ),
    {
        self.model.add_inst(Instruction::SingleQubit(SingleGateKind::TAdj, qubit));
    }

    /// Appends an X instruction on the given target.
    pub fn x(&mut self, qubit: String)
        ensures
            final(self)@ == spec_with_instruction(
                old(self)@,
                InstructionView::SingleQubit(SingleGateKind::X, qubit@),
            ),
    {
        self.model.add_inst(Instruction::SingleQubit(SingleGateKind::X, qubit));
    }

    /// Appends a Y instruction on the given target.
    pub fn y(&mut self, qubit: String)
        ensures
            final(self)@ == spec_with_instruction(
                old(self)@,
                InstructionView::SingleQubit(SingleGateKind::Y, qubit@),
            ),
    {
        self.model.add_inst(Instruction::SingleQubit(SingleGateKind::Y, qubit));
    }

    /// Appends a Z instruction on the given target.
    pub fn z(&mut self, qubit: String)
        ensures
            final(self)@ == spec_with_instruction(
                old(self)@,
                InstructionView::SingleQubit(SingleGateKind::Z, qubit@),
            ),
    {
        self.model.add_inst(Instruction::SingleQubit(SingleGateKind::Z, qubit));
    }

    /// Appends a machine-state dump instruction.
    pub fn dump_machine(&mut self)
        ensures
            final(self)@ == spec_with_instruction(old(self)@, InstructionView::DumpMachine),
    {
        self.model.add_inst(Instruction::DumpMachine);
    }

    /// Registers a quantum register of the given name: one entry per slot,
    /// indices `0 .. size` in increasing order.
    pub fn add_quantum_register(&mut self, name: String, size: u64)
        ensures
            final(self)@ == (SemanticModelView {
                registers: old(self)@.registers + spec_quantum_entries(name@, size as nat),
                ..old(self)@
            }),
    {
        proof {
            assert(old(self)@.registers + spec_quantum_entries(name@, 0) =~= old(self)@.registers);
        }
        let mut index: u64 = 0;
        while index < size
            invariant
                index <= size,
                self@ == (SemanticModelView {
                    registers: old(self)@.registers + spec_quantum_entries(name@, index as nat),
                    ..old(self)@
                }),
            decreases size - index,
        {
            let reg = Register::Quantum { name: name.clone(), index };
            self.model.add_reg(reg);
            proof {
                assert(spec_quantum_entries(name@, (index + 1) as nat) =~= spec_quantum_entries(
                    name@,
                    index as nat,
                ).push((RegisterView::Quantum { name: name@, index: index as int })));
                assert(old(self)@.registers + spec_quantum_entries(name@, (index + 1) as nat) =~= (
                old(self)@.registers + spec_quantum_entries(name@, index as nat)).push(
                    (RegisterView::Quantum { name: name@, index: index as int }),
                ));
            }
            index += 1;
        }
    }

    /// Registers a classical register as a single entry recording the whole
    /// register's size, unlike the per-slot quantum expansion.
    pub fn add_classical_register(&mut self, name: String, size: u64)
        ensures
            final(self)@ == (SemanticModelView {
                registers: old(self)@.registers.push(
                    (RegisterView::Classical { name: name@, size: size as nat }),
                ),
                ..old(self)@
            }),
    {
        self.model.add_reg(Register::Classical { name, size });
    }

    /// Dispatches one measurement: resolves each side as a single register
    /// slot — the source first — and appends the measurement instruction.
    /// On failure nothing is appended.
    pub fn measure(&mut self, qubit: Argument, target: Argument) -> (r: Result<
        (),
        TranslateError,
    >)
        ensures
            spec_measure_step(old(self)@, qubit@, target@) matches Ok(m2) ==> r is Ok
                && final(self)@ == m2,
            spec_measure_step(old(self)@, qubit@, target@) matches Err(e) ==> r matches Err(err)
                && err@ == e && final(self)@ == old(self)@,
    {
        let source = match crate::arguments::QubitRef::from_argument(&qubit) {
            Ok(q) => q,
            Err(e) => {
                return Err(e);
            },
        };
        let destination = match crate::arguments::QubitRef::from_argument(&target) {
            Ok(q) => q,
            Err(e) => {
                return Err(e);
            },
        };
        self.m(source.as_qir_name(), destination.as_qir_name());
        Ok(())
    }

    /// Dispatches one gate application: looks up the kind the name yields,
    /// resolves the argument list at that kind's arity, and appends the
    /// matching instruction. On failure nothing is appended.
    pub fn apply_gate(&mut self, name: String, qubits: Vec<Argument>, params: Vec<String>) -> (r:
        Result<(), TranslateError>)
        ensures
            spec_gate_step(old(self)@, name@, qubits.deep_view(), params.deep_view())
                matches Ok(m2) ==> r is Ok && final(self)@ == m2,
            spec_gate_step(old(self)@, name@, qubits.deep_view(), params.deep_view())
                matches Err(e) ==> r matches Err(err) && err@ == e && final(self)@ == old(self)@,
    {
        let kind = match gate_lookup(name.as_str()) {
            Some(kind) => kind,
            None => {
                return Err(TranslateError::UnsupportedGate(name));
            },
        };
        let slots = match resolve_arguments(&qubits, arity_of(kind)) {
            Ok(slots) => slots,
            Err(e) => {
                return Err(e);
            },
        };
        proof {
            assert(forall|j: int|
                0 <= j < slots@.len() ==> slots.deep_view()[j] == slots@[j].deep_view());
        }
        match kind {
            GateKind::Single(k) => {
                let target = slots[0].as_qir_name();
                match k {
                    SingleGateKind::H => self.h(target),
                    SingleGateKind::X => self.x(target),
                    SingleGateKind::Y => self.y(target),
                    SingleGateKind::Z => self.z(target),
                    SingleGateKind::S => self.s(target),
                    SingleGateKind::SAdj => self.s_adj(target),
                    SingleGateKind::T => self.t(target),
                    SingleGateKind::TAdj => self.t_adj(target),
                    SingleGateKind::Reset => self.reset(target),
                }
                Ok(())
            },
            GateKind::Rotation(k) => {
                if params.len() != 1 {
                    return Err(TranslateError::ArityMismatch { expected: 1, actual: params.len() });
                }
                let angle = params[0].clone();
                let target = slots[0].as_qir_name();
                proof {
                    assert(params.deep_view()[0] == params@[0].deep_view());
                }
                match k {
                    RotationGateKind::Rx => self.rx(angle, target),
                    RotationGateKind::Ry => self.ry(angle, target),
                    RotationGateKind::Rz => self.rz(angle, target),
                }
                Ok(())
            },
            GateKind::Two(k) => {
                let control = slots[0].as_qir_name();
                let target = slots[1].as_qir_name();
                match k {
                    TwoGateKind::Cx => self.cx(control, target),
                    TwoGateKind::Cz => self.cz(control, target),
                }
                Ok(())
            },
            GateKind::DumpMachine => {
                self.dump_machine();
                Ok(())
            },
        }
    }

    /// Dispatches one node: declarations extend the register table, gate
    /// applications and measurements append instructions, and any other
    /// node kind is skipped without error. A failing node appends nothing:
    /// the model comes back exactly as it was.
    pub fn walk(&mut self, node: AstNode) -> (r: Result<(), TranslateError>)
        ensures
            spec_node_step(old(self)@, node@) matches Ok(m2) ==> r is Ok && final(self)@ == m2,
            spec_node_step(old(self)@, node@) matches Err(e) ==> r matches Err(err) && err@ == e
                && final(self)@ == old(self)@,
    {
        match node {
            AstNode::QuantumRegisterDecl(name, size) => {
                self.add_quantum_register(name, size);
                Ok(())
            },
            AstNode::ClassicalRegisterDecl(name, size) => {
                self.add_classical_register(name, size);
                Ok(())
            },
            AstNode::ApplyGate(name, qubits, params) => self.apply_gate(name, qubits, params),
            AstNode::Measure(qubit, target) => self.measure(qubit, target),
            AstNode::Other(_) => Ok(()),
        }
    }

    /// Walks one statement group, dispatching each node in order; a failing
    /// node is skipped and its failure pushed onto `errors` with its
    /// position.
    fn translate_group(&mut self, group: &Vec<AstNode>, g: usize, errors: &mut Vec<ErrorAt>)
        ensures
            ({
                let run = spec_run_nodes(old(self)@, group.deep_view(), g as int, 0);
                &&& final(self)@ == run.0
                &&& final(errors).deep_view() == old(errors).deep_view() + run.1
            }),
    {
        let ghost nodes = group.deep_view();
        let ghost start_errors = old(errors).deep_view();
        let mut i: usize = 0;
        proof {
            assert(nodes.skip(0) =~= nodes);
            assert(errors.deep_view().skip(start_errors.len() as int) =~= Seq::<
                ErrorAtView,
            >::empty());
        }
        while i < group.len()
            invariant
                i <= group.len(),
                nodes == group.deep_view(),
                nodes.len() == group.len(),
                errors.deep_view().len() >= start_errors.len(),
                errors.deep_view().take(start_errors.len() as int) == start_errors,
                spec_run_nodes(old(self)@, nodes, g as int, 0).0 == spec_run_nodes(
                    self@,
                    nodes.skip(i as int),
                    g as int,
                    i as int,
                ).0,
                spec_run_nodes(old(self)@, nodes, g as int, 0).1 == errors.deep_view().skip(
                    start_errors.len() as int,
                ) + spec_run_nodes(self@, nodes.skip(i as int), g as int, i as int).1,
            decreases group.len() - i,
        {
            let ghost before = self@;
            let ghost errors_before = errors.deep_view();
            proof {
                assert(group.deep_view()[i as int] == group@[i as int].deep_view());
                assert(nodes.skip(i as int)[0] == nodes[i as int]);
                assert(nodes.skip(i as int).drop_first() =~= nodes.skip(i as int + 1));
            }
            match self.walk(group[i].clone()) {
                Ok(()) => {
                    proof {
                        let rest = spec_run_nodes(self@, nodes.skip(i as int + 1), g as int, i as int
                            + 1);
                        assert(Seq::<ErrorAtView>::empty() + rest.1 =~= rest.1);
                    }
                },
                Err(e) => {
                    let entry = ErrorAt { group: g, node: i, error: e };
                    errors.push(entry);
                    proof {
                        assert(errors.deep_view() =~= errors_before.push(entry@));
                        assert(errors.deep_view().take(start_errors.len() as int)
                            =~= errors_before.take(start_errors.len() as int));
                        let rest = spec_run_nodes(self@, nodes.skip(i as int + 1), g as int, i as int
                            + 1);
                        assert(errors.deep_view().skip(start_errors.len() as int)
                            =~= errors_before.skip(start_errors.len() as int).push(entry@));
                        assert(errors_before.skip(start_errors.len() as int) + (seq![entry@]
                            + rest.1) =~= errors.deep_view().skip(start_errors.len() as int)
                            + rest.1);
                    }
                },
            }
            i += 1;
        }
        proof {
            assert(nodes.skip(group.len() as int) =~= Seq::<AstNodeView>::empty());
            let run = spec_run_nodes(old(self)@, nodes, g as int, 0);
            assert(errors.deep_view().skip(start_errors.len() as int) + Seq::<
                ErrorAtView,
            >::empty() =~= errors.deep_view().skip(start_errors.len() as int));
            assert(errors.deep_view() =~= errors.deep_view().take(start_errors.len() as int)
                + errors.deep_view().skip(start_errors.len() as int));
        }
    }

    /// The translation driver: walks the program's statement groups in file
    /// order, dispatching each node exactly once, skipping each failing
    /// statement, and returns every collected failure with its position.
    /// Translation runs to completion; the model holds everything the
    /// succeeding statements produced, in program order.
    pub fn translate(&mut self, program: &Vec<Vec<AstNode>>) -> (errors: Vec<ErrorAt>)
        ensures
            ({
                let run = spec_run_groups(old(self)@, program.deep_view(), 0);
                &&& final(self)@ == run.0
                &&& errors.deep_view() == run.1
            }),
    {
        let ghost groups = program.deep_view();
        let mut errors: Vec<ErrorAt> = Vec::new();
        let mut g: usize = 0;
        proof {
            assert(groups.skip(0) =~= groups);
            assert(errors.deep_view() =~= Seq::<ErrorAtView>::empty());
        }
        while g < program.len()
            invariant
                g <= program.len(),
                groups == program.deep_view(),
                groups.len() == program.len(),
                spec_run_groups(old(self)@, groups, 0).0 == spec_run_groups(
                    self@,
                    groups.skip(g as int),
                    g as int,
                ).0,
                spec_run_groups(old(self)@, groups, 0).1 == errors.deep_view() + spec_run_groups(
                    self@,
                    groups.skip(g as int),
                    g as int,
                ).1,
            decreases program.len() - g,
        {
            proof {
                assert(program.deep_view()[g as int] == program@[g as int].deep_view());
                assert(groups.skip(g as int)[0] == groups[g as int]);
                assert(groups.skip(g as int).drop_first() =~= groups.skip(g as int + 1));
            }
            let ghost before = self@;
            let ghost errors_before = errors.deep_view();
            self.translate_group(&program[g], g, &mut errors);
            proof {
                let first = spec_run_nodes(before, groups[g as int], g as int, 0);
                let rest = spec_run_groups(self@, groups.skip(g as int + 1), g as int + 1);
                assert(errors_before + (first.1 + rest.1) =~= (errors_before + first.1) + rest.1);
            }
            g += 1;
        }
        proof {
            assert(groups.skip(program.len() as int) =~= Seq::<Seq<AstNodeView>>::empty());
            assert(errors.deep_view() + Seq::<ErrorAtView>::empty() =~= errors.deep_view());
        }
        errors
    }
}

/// Law: for every supported single-qubit gate name and every qubit
/// argument, one application of that gate appends exactly one instruction
/// of the matching kind, with the argument's canonical name as its target:
/// the instruction sequence grows by exactly one, and the register table
/// and the model name are untouched.
pub proof fn lemma_single_qubit_gate_appends(
    m: SemanticModelView,
    name: Seq<char>,
    kind: SingleGateKind,
    q: QubitRefView,
    params: Seq<Seq<char>>,
)
    requires
        spec_gate_of(name) == Some(GateKind::Single(kind)),
    ensures
        ({
            let run = spec_gate_step(m, name, seq![ArgumentView::Qubit(q.name, q.index)], params);
            &&& run matches Ok(m2)
            &&& m2.instructions == m.instructions.push(
                InstructionView::SingleQubit(kind, spec_qir_name(q)),
            )
            &&& m2.instructions.len() == m.instructions.len() + 1
            &&& m2.registers == m.registers
            &&& m2.name == m.name
        }),
{
    let args = seq![ArgumentView::Qubit(q.name, q.index)];
    lemma_resolve_all_ok(args);
    assert(q == (QubitRefView { name: q.name, index: q.index }));
    assert(Seq::new(args.len(), |j: int| spec_slot_of(args[j])) =~= seq![q]);
    assert(spec_resolve_all(args) == Ok::<Seq<QubitRefView>, Seq<char>>(seq![q]));
}

/// Law: applying the `cx` gate to the argument pair (A, B) appends a
/// two-qubit instruction with control A and target B; applied to (B, A)
/// instead, the appended instruction differs, whenever the two canonical
/// names differ. (With equal canonical names — in particular A == B — the
/// two instructions coincide, so those pairs are left out.)
pub proof fn lemma_cx_orientation(
    m: SemanticModelView,
    a: QubitRefView,
    b: QubitRefView,
    params: Seq<Seq<char>>,
)
    requires
        spec_qir_name(a) != spec_qir_name(b),
    ensures
        ({
            let forward = spec_gate_step(
                m,
                "cx"@,
                seq![
                    ArgumentView::Qubit(a.name, a.index),
                    ArgumentView::Qubit(b.name, b.index),
                ],
                params,
            );
            let swapped = spec_gate_step(
                m,
                "cx"@,
                seq![
                    ArgumentView::Qubit(b.name, b.index),
                    ArgumentView::Qubit(a.name, a.index),
                ],
                params,
            );
            &&& forward matches Ok(mf) && mf.instructions == m.instructions.push(
                InstructionView::TwoQubit(TwoGateKind::Cx, spec_qir_name(a), spec_qir_name(b)),
            )
            &&& swapped matches Ok(ms) && ms.instructions == m.instructions.push(
                InstructionView::TwoQubit(TwoGateKind::Cx, spec_qir_name(b), spec_qir_name(a)),
            )
            &&& forward->Ok_0.instructions.last() != swapped->Ok_0.instructions.last()
        }),
{
    reveal_gate_names();
    let forward_args = seq![ArgumentView::Qubit(a.name, a.index), ArgumentView::Qubit(b.name, b.index)];
    let swapped_args = seq![ArgumentView::Qubit(b.name, b.index), ArgumentView::Qubit(a.name, a.index)];
    lemma_resolve_all_ok(forward_args);
    lemma_resolve_all_ok(swapped_args);
    assert(a == (QubitRefView { name: a.name, index: a.index }));
    assert(b == (QubitRefView { name: b.name, index: b.index }));
    assert(Seq::new(forward_args.len(), |j: int| spec_slot_of(forward_args[j])) =~= seq![a, b]);
    assert(Seq::new(swapped_args.len(), |j: int| spec_slot_of(swapped_args[j])) =~= seq![b, a]);
    assert(spec_resolve_all(forward_args) == Ok::<Seq<QubitRefView>, Seq<char>>(seq![a, b]));
    assert(spec_resolve_all(swapped_args) == Ok::<Seq<QubitRefView>, Seq<char>>(seq![b, a]));
}

/// Law: when an argument list is longer or shorter than the arity of the
/// gate's kind, the step fails with `ArityMismatch`, carrying both counts,
/// and the dispatcher appends nothing: the model comes back unchanged.
pub proof fn lemma_arity_mismatch(
    m: SemanticModelView,
    name: Seq<char>,
    args: Seq<ArgumentView>,
    params: Seq<Seq<char>>,
)
    requires
        spec_gate_of(name) is Some,
        args.len() != spec_arity(spec_gate_of(name)->Some_0),
    ensures
        spec_gate_step(m, name, args, params) == Err::<SemanticModelView, TranslateErrorView>(
            (TranslateErrorView::ArityMismatch {
                expected: spec_arity(spec_gate_of(name)->Some_0) as int,
                actual: args.len() as int,
            }),
        ),
{
}

/// Law: a node kind outside the instruction set is skippable — its step
/// succeeds and returns the model unchanged, so register count,
/// instruction count and instruction contents all stay as they were, and
/// no error is raised.
pub proof fn lemma_other_node_is_noop(m: SemanticModelView, tag: Seq<char>)
    ensures
        spec_node_step(m, AstNodeView::Other(tag)) == Ok::<SemanticModelView, TranslateErrorView>(
            m,
        ),
{
}

/// Law: translating an empty program changes nothing and collects no
/// errors; started from a fresh model, the result therefore has zero
/// registers and zero instructions.
pub proof fn lemma_empty_program(m: SemanticModelView, g: int)
    ensures
        spec_run_groups(m, Seq::empty(), g) == (m, Seq::<ErrorAtView>::empty()),
{
}

} // verus!
