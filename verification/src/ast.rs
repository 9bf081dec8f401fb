//! The input of translation: the parsed program, as the front-end hands it
//! over. The library never parses raw text; it receives these nodes.

use vstd::prelude::*;

verus! {

/// A raw argument node: either one indexed slot of a register, or a whole
/// register by name.
#[derive(Debug, PartialEq, Eq)]
pub enum Argument {
    /// One slot: the register name and the index.
    Qubit(String, i32),
    /// A whole register, by name alone.
    Register(String),
}

/// The mathematical value of an `Argument`.
pub enum ArgumentView {
    Qubit(Seq<char>, int),
    Register(Seq<char>),
}

impl View for Argument {
    type V = ArgumentView;

    open spec fn view(&self) -> ArgumentView {
        match self {
            Argument::Qubit(name, index) => ArgumentView::Qubit(name@, *index as int),
            Argument::Register(name) => ArgumentView::Register(name@),
        }
    }
}

impl DeepView for Argument {
    type V = ArgumentView;

    open spec fn deep_view(&self) -> ArgumentView {
        self.view()
    }
}

impl Clone for Argument {
    fn clone(&self) -> (r: Self)
        ensures
            r == *self,
    {
        match self {
            Argument::Qubit(name, index) => Argument::Qubit(name.clone(), *index),
            Argument::Register(name) => Argument::Register(name.clone()),
        }
    }
}

/// One statement node of the parsed program.
#[derive(Debug, PartialEq, Eq)]
pub enum AstNode {
    /// Declares a quantum register: its name and its size in qubits.
    QuantumRegisterDecl(String, u64),
    /// Declares a classical register: its name and its size in bits.
    ClassicalRegisterDecl(String, u64),
    /// Applies the named gate to the argument list. The second list carries
    /// the angle parameters as the front-end's expression text, a channel
    /// separate from the qubit arguments.
    ApplyGate(String, Vec<Argument>, Vec<String>),
    /// Measures the first argument into the second.
    Measure(Argument, Argument),
    /// A node kind outside the current instruction set (a barrier, a gate
    /// definition, a conditional); carries a tag naming the kind. The
    /// program may legally contain such nodes and they are skippable.
    Other(String),
}

/// The mathematical value of an `AstNode`.
pub enum AstNodeView {
    QuantumRegisterDecl(Seq<char>, nat),
    ClassicalRegisterDecl(Seq<char>, nat),
    ApplyGate(Seq<char>, Seq<ArgumentView>, Seq<Seq<char>>),
    Measure(ArgumentView, ArgumentView),
    Other(Seq<char>),
}

impl View for AstNode {
    type V = AstNodeView;

    open spec fn view(&self) -> AstNodeView {
        match self {
            AstNode::QuantumRegisterDecl(name, size) => AstNodeView::QuantumRegisterDecl(
                name@,
                *size as nat,
            ),
            AstNode::ClassicalRegisterDecl(name, size) => AstNodeView::ClassicalRegisterDecl(
                name@,
                *size as nat,
            ),
            AstNode::ApplyGate(name, args, params) => AstNodeView::ApplyGate(
                name@,
                args.deep_view(),
                params.deep_view(),
            ),
            AstNode::Measure(qubit, target) => AstNodeView::Measure(qubit@, target@),
            AstNode::Other(tag) => AstNodeView::Other(tag@),
        }
    }
}

impl DeepView for AstNode {
    type V = AstNodeView;

    open spec fn deep_view(&self) -> AstNodeView {
        self.view()
    }
}

impl Clone for AstNode {
    fn clone(&self) -> (r: Self)
        ensures
            r@ == self@,
    {
        match self {
            AstNode::QuantumRegisterDecl(name, size) => AstNode::QuantumRegisterDecl(
                name.clone(),
                *size,
            ),
            AstNode::ClassicalRegisterDecl(name, size) => AstNode::ClassicalRegisterDecl(
                name.clone(),
                *size,
            ),
            AstNode::ApplyGate(name, args, params) => {
                let args2 = args.clone();
                let params2 = params.clone();
                proof {
                    assert(args2.deep_view() =~= args.deep_view());
                    assert(params2.deep_view() =~= params.deep_view());
                }
                AstNode::ApplyGate(name.clone(), args2, params2)
            },
            AstNode::Measure(qubit, target) => AstNode::Measure(qubit.clone(), target.clone()),
            AstNode::Other(tag) => AstNode::Other(tag.clone()),
        }
    }
}

} // verus!
