//! Dispatcher and driver behaviour, node by node and end to end.

use qir_translator::arguments::{resolve_arguments, Pair, QubitRef};
use qir_translator::ast::{Argument, AstNode};
use qir_translator::errors::{ErrorAt, TranslateError};
use qir_translator::listener::QasmListener;
use qir_translator::model::{
    Instruction, Register, RotationGateKind, SingleGateKind, TwoGateKind,
};

fn qubit(name: &str, index: i32) -> Argument {
    Argument::Qubit(name.to_string(), index)
}

fn gate(name: &str, args: Vec<Argument>) -> AstNode {
    AstNode::ApplyGate(name.to_string(), args, Vec::new())
}

fn single_gate_appends(name: &str, kind: SingleGateKind) {
    let mut listener = QasmListener::new("test".to_string());
    let r = listener.walk(gate(name, vec![qubit("q", 0)]));
    assert_eq!(r, Ok(()));
    assert_eq!(
        listener.model.instructions,
        vec![Instruction::SingleQubit(kind, "q0".to_string())]
    );
    assert_eq!(listener.model.registers.len(), 0);
}

#[test]
fn h_appends_one_matching_instruction() {
    single_gate_appends("h", SingleGateKind::H);
}

#[test]
fn x_appends_one_matching_instruction() {
    single_gate_appends("x", SingleGateKind::X);
}

#[test]
fn y_appends_one_matching_instruction() {
    single_gate_appends("y", SingleGateKind::Y);
}

#[test]
fn z_appends_one_matching_instruction() {
    single_gate_appends("z", SingleGateKind::Z);
}

#[test]
fn s_appends_one_matching_instruction() {
    single_gate_appends("s", SingleGateKind::S);
}

#[test]
fn sdg_appends_one_matching_instruction() {
    single_gate_appends("sdg", SingleGateKind::SAdj);
}

#[test]
fn t_appends_one_matching_instruction() {
    single_gate_appends("t", SingleGateKind::T);
}

#[test]
fn tdg_appends_one_matching_instruction() {
    single_gate_appends("tdg", SingleGateKind::TAdj);
}

#[test]
fn reset_appends_one_matching_instruction() {
    single_gate_appends("reset", SingleGateKind::Reset);
}

#[test]
fn cx_keeps_control_and_target_order() {
    let mut listener = QasmListener::new("test".to_string());
    let r = listener.walk(gate("cx", vec![qubit("q", 0), qubit("q", 1)]));
    assert_eq!(r, Ok(()));
    assert_eq!(
        listener.model.instructions,
        vec![Instruction::TwoQubit(
            TwoGateKind::Cx,
            "q0".to_string(),
            "q1".to_string()
        )]
    );
}

#[test]
fn cx_swapped_arguments_change_the_instruction() {
    let mut forward = QasmListener::new("test".to_string());
    forward
        .walk(gate("cx", vec![qubit("q", 0), qubit("q", 1)]))
        .unwrap();
    let mut swapped = QasmListener::new("test".to_string());
    swapped
        .walk(gate("cx", vec![qubit("q", 1), qubit("q", 0)]))
        .unwrap();
    assert_ne!(forward.model.instructions, swapped.model.instructions);
}

#[test]
fn cz_keeps_control_and_target_order() {
    let mut listener = QasmListener::new("test".to_string());
    let r = listener.walk(gate("cz", vec![qubit("a", 3), qubit("b", 4)]));
    assert_eq!(r, Ok(()));
    assert_eq!(
        listener.model.instructions,
        vec![Instruction::TwoQubit(
            TwoGateKind::Cz,
            "a3".to_string(),
            "b4".to_string()
        )]
    );
}

#[test]
fn dump_machine_takes_no_arguments() {
    let mut listener = QasmListener::new("test".to_string());
    let r = listener.walk(gate("dump_machine", Vec::new()));
    assert_eq!(r, Ok(()));
    assert_eq!(listener.model.instructions, vec![Instruction::DumpMachine]);
}

#[test]
fn rotation_takes_angle_from_parameter_channel() {
    let mut listener = QasmListener::new("test".to_string());
    let node = AstNode::ApplyGate(
        "rx".to_string(),
        vec![qubit("q", 0)],
        vec!["pi/2".to_string()],
    );
    let r = listener.walk(node);
    assert_eq!(r, Ok(()));
    assert_eq!(
        listener.model.instructions,
        vec![Instruction::Rotation(
            RotationGateKind::Rx,
            "pi/2".to_string(),
            "q0".to_string()
        )]
    );
}

#[test]
fn rotation_without_angle_is_arity_mismatch() {
    let mut listener = QasmListener::new("test".to_string());
    let r = listener.walk(gate("rz", vec![qubit("q", 0)]));
    assert_eq!(
        r,
        Err(TranslateError::ArityMismatch { expected: 1, actual: 0 })
    );
    assert_eq!(listener.model.instructions.len(), 0);
}

#[test]
fn too_many_arguments_is_arity_mismatch() {
    let mut listener = QasmListener::new("test".to_string());
    let r = listener.walk(gate("h", vec![qubit("q", 0), qubit("q", 1)]));
    assert_eq!(
        r,
        Err(TranslateError::ArityMismatch { expected: 1, actual: 2 })
    );
    assert_eq!(listener.model.instructions.len(), 0);
    assert_eq!(listener.model.registers.len(), 0);
}

#[test]
fn too_few_arguments_is_arity_mismatch() {
    let mut listener = QasmListener::new("test".to_string());
    let r = listener.walk(gate("cx", vec![qubit("q", 0)]));
    assert_eq!(
        r,
        Err(TranslateError::ArityMismatch { expected: 2, actual: 1 })
    );
    assert_eq!(listener.model.instructions.len(), 0);
}

#[test]
fn unknown_gate_name_is_reported() {
    let mut listener = QasmListener::new("test".to_string());
    let r = listener.walk(gate("ccx", vec![qubit("q", 0)]));
    assert_eq!(r, Err(TranslateError::UnsupportedGate("ccx".to_string())));
    assert_eq!(listener.model.instructions.len(), 0);
}

#[test]
fn whole_register_argument_is_type_mismatch() {
    let mut listener = QasmListener::new("test".to_string());
    let r = listener.walk(gate("h", vec![Argument::Register("q".to_string())]));
    assert_eq!(r, Err(TranslateError::TypeMismatch("q".to_string())));
    assert_eq!(listener.model.instructions.len(), 0);
}

#[test]
fn measure_appends_measurement() {
    let mut listener = QasmListener::new("test".to_string());
    let r = listener.walk(AstNode::Measure(qubit("q", 1), qubit("c", 0)));
    assert_eq!(r, Ok(()));
    assert_eq!(
        listener.model.instructions,
        vec![Instruction::Measurement("q1".to_string(), "c0".to_string())]
    );
}

#[test]
fn measure_rejects_whole_register_source() {
    let mut listener = QasmListener::new("test".to_string());
    let r = listener.walk(AstNode::Measure(
        Argument::Register("q".to_string()),
        qubit("c", 0),
    ));
    assert_eq!(r, Err(TranslateError::TypeMismatch("q".to_string())));
    assert_eq!(listener.model.instructions.len(), 0);
}

#[test]
fn measure_rejects_whole_register_destination() {
    let mut listener = QasmListener::new("test".to_string());
    let r = listener.walk(AstNode::Measure(
        qubit("q", 0),
        Argument::Register("c".to_string()),
    ));
    assert_eq!(r, Err(TranslateError::TypeMismatch("c".to_string())));
    assert_eq!(listener.model.instructions.len(), 0);
}

#[test]
fn quantum_register_expands_one_entry_per_slot() {
    let mut listener = QasmListener::new("test".to_string());
    let r = listener.walk(AstNode::QuantumRegisterDecl("q".to_string(), 3));
    assert_eq!(r, Ok(()));
    assert_eq!(
        listener.model.registers,
        vec![
            Register::Quantum { name: "q".to_string(), index: 0 },
            Register::Quantum { name: "q".to_string(), index: 1 },
            Register::Quantum { name: "q".to_string(), index: 2 },
        ]
    );
    let names: Vec<String> = (0..3)
        .map(|i| QubitRef("q".to_string(), i).as_qir_name())
        .collect();
    assert_eq!(names, vec!["q0", "q1", "q2"]);
}

#[test]
fn classical_register_is_one_aggregate_entry() {
    let mut listener = QasmListener::new("test".to_string());
    let r = listener.walk(AstNode::ClassicalRegisterDecl("c".to_string(), 3));
    assert_eq!(r, Ok(()));
    assert_eq!(
        listener.model.registers,
        vec![Register::Classical { name: "c".to_string(), size: 3 }]
    );
}

#[test]
fn end_to_end_bell_pair_with_measurement() {
    let mut listener = QasmListener::new("test".to_string());
    let program = vec![vec![
        AstNode::QuantumRegisterDecl("q".to_string(), 2),
        gate("h", vec![qubit("q", 0)]),
        gate("cx", vec![qubit("q", 0), qubit("q", 1)]),
        AstNode::Measure(qubit("q", 1), qubit("c", 0)),
    ]];
    let errors = listener.translate(&program);
    assert_eq!(errors, Vec::new());
    assert_eq!(
        listener.model.registers,
        vec![
            Register::Quantum { name: "q".to_string(), index: 0 },
            Register::Quantum { name: "q".to_string(), index: 1 },
        ]
    );
    assert_eq!(
        listener.model.instructions,
        vec![
            Instruction::SingleQubit(SingleGateKind::H, "q0".to_string()),
            Instruction::TwoQubit(TwoGateKind::Cx, "q0".to_string(), "q1".to_string()),
            Instruction::Measurement("q1".to_string(), "c0".to_string()),
        ]
    );
}

#[test]
fn unrecognized_node_kind_changes_nothing() {
    let mut listener = QasmListener::new("test".to_string());
    listener
        .walk(AstNode::QuantumRegisterDecl("q".to_string(), 1))
        .unwrap();
    listener.walk(gate("h", vec![qubit("q", 0)])).unwrap();
    let registers_before = listener.model.registers.len();
    let instructions_before = listener.model.instructions.len();
    let r = listener.walk(AstNode::Other("barrier".to_string()));
    assert_eq!(r, Ok(()));
    assert_eq!(listener.model.registers.len(), registers_before);
    assert_eq!(listener.model.instructions.len(), instructions_before);
    assert_eq!(
        listener.model.instructions,
        vec![Instruction::SingleQubit(SingleGateKind::H, "q0".to_string())]
    );
}

#[test]
fn empty_program_yields_empty_model() {
    let mut listener = QasmListener::new("test".to_string());
    let errors = listener.translate(&Vec::new());
    assert_eq!(errors, Vec::new());
    assert_eq!(listener.model.name, "test");
    assert_eq!(listener.model.registers.len(), 0);
    assert_eq!(listener.model.instructions.len(), 0);
}

#[test]
fn empty_statement_group_yields_empty_model() {
    let mut listener = QasmListener::new("test".to_string());
    let errors = listener.translate(&vec![Vec::new()]);
    assert_eq!(errors, Vec::new());
    assert_eq!(listener.model.registers.len(), 0);
    assert_eq!(listener.model.instructions.len(), 0);
}

#[test]
fn driver_collects_errors_with_positions_and_continues() {
    let mut listener = QasmListener::new("test".to_string());
    let program = vec![
        vec![
            AstNode::QuantumRegisterDecl("q".to_string(), 1),
            gate("ccx", vec![qubit("q", 0)]),
        ],
        vec![
            gate("h", vec![qubit("q", 0)]),
            gate("h", vec![qubit("q", 0), qubit("q", 0)]),
        ],
    ];
    let errors = listener.translate(&program);
    assert_eq!(
        errors,
        vec![
            ErrorAt {
                group: 0,
                node: 1,
                error: TranslateError::UnsupportedGate("ccx".to_string()),
            },
            ErrorAt {
                group: 1,
                node: 1,
                error: TranslateError::ArityMismatch { expected: 1, actual: 2 },
            },
        ]
    );
    assert_eq!(listener.model.registers.len(), 1);
    assert_eq!(
        listener.model.instructions,
        vec![Instruction::SingleQubit(SingleGateKind::H, "q0".to_string())]
    );
}

#[test]
fn resolver_generalizes_to_higher_arities() {
    let args = vec![qubit("q", 0), qubit("q", 1), qubit("q", 2)];
    let slots = resolve_arguments(&args, 3).unwrap();
    assert_eq!(slots.len(), 3);
    assert_eq!(slots[0], QubitRef("q".to_string(), 0));
    assert_eq!(slots[2], QubitRef("q".to_string(), 2));
}

#[test]
fn resolver_reports_first_offending_argument() {
    let args = vec![
        qubit("q", 0),
        Argument::Register("a".to_string()),
        Argument::Register("b".to_string()),
    ];
    let r = resolve_arguments(&args, 3);
    assert_eq!(r, Err(TranslateError::TypeMismatch("a".to_string())));
}

#[test]
fn single_slot_list_resolution() {
    let args = vec![qubit("q", 4)];
    assert_eq!(
        QubitRef::from_arguments(&args),
        Ok(QubitRef("q".to_string(), 4))
    );
    let too_many = vec![qubit("q", 0), qubit("q", 1)];
    assert_eq!(
        QubitRef::from_arguments(&too_many),
        Err(TranslateError::ArityMismatch { expected: 1, actual: 2 })
    );
}

#[test]
fn pair_resolution_preserves_order() {
    let args = vec![qubit("q", 0), qubit("q", 1)];
    let pair = Pair::from_arguments(&args).unwrap();
    assert_eq!(pair.0, QubitRef("q".to_string(), 0));
    assert_eq!(pair.1, QubitRef("q".to_string(), 1));
}

#[test]
fn single_resolution_checks_kind() {
    let ok = QubitRef::from_argument(&qubit("q", 5)).unwrap();
    assert_eq!(ok, QubitRef("q".to_string(), 5));
    let err = QubitRef::from_argument(&Argument::Register("c".to_string()));
    assert_eq!(err, Err(TranslateError::TypeMismatch("c".to_string())));
}

#[test]
fn listener_methods_append_in_call_order() {
    let mut listener = QasmListener::new("direct".to_string());
    listener.h("q0".to_string());
    listener.cx("q0".to_string(), "q1".to_string());
    listener.m("q1".to_string(), "c0".to_string());
    listener.dump_machine();
    assert_eq!(
        listener.model.instructions,
        vec![
            Instruction::SingleQubit(SingleGateKind::H, "q0".to_string()),
            Instruction::TwoQubit(TwoGateKind::Cx, "q0".to_string(), "q1".to_string()),
            Instruction::Measurement("q1".to_string(), "c0".to_string()),
            Instruction::DumpMachine,
        ]
    );
}
