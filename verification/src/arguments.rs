//! The argument resolver: raw argument nodes become typed register
//! references, under an arity check and a kind check.

use vstd::prelude::*;
use vstd::string::StringExecFns;
use crate::ast::{Argument, ArgumentView};
use crate::decimal::{i32_to_decimal, spec_decimal_int};
use crate::errors::{TranslateError, TranslateErrorView};

verus! {

/// A typed reference to one addressable register slot: the register
/// namespace and the index within it.
#[derive(Debug, PartialEq, Eq)]
pub struct QubitRef(pub String, pub i32);

/// The mathematical value of a `QubitRef`.
pub struct QubitRefView {
    pub name: Seq<char>,
    pub index: int,
}

impl View for QubitRef {
    type V = QubitRefView;

    open spec fn view(&self) -> QubitRefView {
        QubitRefView { name: self.0@, index: self.1 as int }
    }
}

impl DeepView for QubitRef {
    type V = QubitRefView;

    open spec fn deep_view(&self) -> QubitRefView {
        self.view()
    }
}

/// The canonical cross-component name of a register slot: the namespace
/// followed by the decimal numeral of the index.
pub open spec fn spec_qir_name(q: QubitRefView) -> Seq<char> {
    q.name + spec_decimal_int(q.index)
}

impl QubitRef {
    /// Renders the canonical name of this slot, e.g. namespace `q` at index
    /// 2 becomes `q2`. A pure function of the reference.
    pub fn as_qir_name(&self) -> (r: String)
        ensures
            r@ == spec_qir_name(self@),
    {
        let mut s = self.0.clone();
        let digits = i32_to_decimal(self.1);
        s.append(digits.as_str());
        s
    }
}

/// The register slot a qubit-kind argument names.
pub open spec fn spec_slot_of(a: ArgumentView) -> QubitRefView
    recommends
        a is Qubit,
{
    QubitRefView { name: a->Qubit_0, index: a->Qubit_1 }
}

/// Resolves every argument as a register slot, left to right. The result of
/// the kind check alone: the first argument that is not qubit-kind fails the
/// list, with the register name it mentions.
pub open spec fn spec_resolve_all(args: Seq<ArgumentView>) -> Result<Seq<QubitRefView>, Seq<char>>
    decreases args.len(),
{
    if args.len() == 0 {
        Ok(Seq::empty())
    } else {
        match args[0] {
            ArgumentView::Qubit(name, index) => match spec_resolve_all(args.drop_first()) {
                Ok(rest) => Ok(seq![(QubitRefView { name, index })] + rest),
                Err(bad) => Err(bad),
            },
            ArgumentView::Register(name) => Err(name),
        }
    }
}

/// What resolving an argument list at a given arity yields: the slots in
/// order, or the first failure — a wrong count before a wrong kind.
pub open spec fn spec_resolve(args: Seq<ArgumentView>, arity: nat) -> Result<
    Seq<QubitRefView>,
    TranslateErrorView,
> {
    if args.len() != arity {
        Err(
            (TranslateErrorView::ArityMismatch {
                expected: arity as int,
                actual: args.len() as int,
            }),
        )
    } else {
        match spec_resolve_all(args) {
            Ok(slots) => Ok(slots),
            Err(bad) => Err(TranslateErrorView::TypeMismatch(bad)),
        }
    }
}

/// When every argument is qubit-kind, resolution succeeds with its slots,
/// in argument order.
pub(crate) proof fn lemma_resolve_all_ok(args: Seq<ArgumentView>)
    requires
        forall|j: int| 0 <= j < args.len() ==> args[j] is Qubit,
    ensures
        spec_resolve_all(args) == Ok::<Seq<QubitRefView>, Seq<char>>(
            Seq::new(args.len(), |j: int| spec_slot_of(args[j])),
        ),
    decreases args.len(),
{
    if args.len() == 0 {
        assert(Seq::new(args.len(), |j: int| spec_slot_of(args[j])) =~= Seq::<
            QubitRefView,
        >::empty());
    } else {
        let rest = args.drop_first();
        lemma_resolve_all_ok(rest);
        assert(seq![spec_slot_of(args[0])] + Seq::new(rest.len(), |j: int| spec_slot_of(rest[j]))
            =~= Seq::new(args.len(), |j: int| spec_slot_of(args[j])));
    }
}

/// Resolution fails with the name mentioned by the first argument that is
/// not qubit-kind.
proof fn lemma_resolve_all_first_bad(args: Seq<ArgumentView>, k: int)
    requires
        0 <= k < args.len(),
        forall|j: int| 0 <= j < k ==> args[j] is Qubit,
        args[k] is Register,
    ensures
        spec_resolve_all(args) == Err::<Seq<QubitRefView>, Seq<char>>(args[k]->Register_0),
    decreases k,
{
    if k > 0 {
        lemma_resolve_all_first_bad(args.drop_first(), k - 1);
    }
}

/// Converts a raw argument list into typed register references, enforcing
/// the expected arity and the qubit kind of every argument: the same rule —
/// length check, then positional extraction — at every arity.
pub fn resolve_arguments(args: &Vec<Argument>, arity: usize) -> (r: Result<
    Vec<QubitRef>,
    TranslateError,
>)
    ensures
        match spec_resolve(args.deep_view(), arity as nat) {
            Ok(slots) => r matches Ok(v) && v.deep_view() == slots && v.len() == arity,
            Err(e) => r matches Err(err) && err@ == e,
        },
{
    if args.len() != arity {
        return Err(TranslateError::ArityMismatch { expected: arity, actual: args.len() });
    }
    let mut out: Vec<QubitRef> = Vec::new();
    let mut i: usize = 0;
    while i < args.len()
        invariant
            args.len() == arity,
            i <= args.len(),
            out.len() == i,
            forall|j: int| 0 <= j < i ==> args.deep_view()[j] is Qubit,
            forall|j: int| 0 <= j < i ==> out.deep_view()[j] == spec_slot_of(args.deep_view()[j]),
        decreases args.len() - i,
    {
        proof {
            assert(args.deep_view()[i as int] == args@[i as int].deep_view());
        }
        match &args[i] {
            Argument::Qubit(name, index) => {
                let q = QubitRef(name.clone(), *index);
                let ghost previous = out.deep_view();
                proof {
                    assert(q@ == spec_slot_of(args.deep_view()[i as int]));
                }
                out.push(q);
                proof {
                    assert(out.deep_view() =~= previous.push(q@));
                }
            },
            Argument::Register(name) => {
                proof {
                    assert(args.deep_view()[i as int] == ArgumentView::Register(name@));
                    lemma_resolve_all_first_bad(args.deep_view(), i as int);
                    assert(args.deep_view().len() == args@.len());
                }
                return Err(TranslateError::TypeMismatch(name.clone()));
            },
        }
        i += 1;
    }
    proof {
        lemma_resolve_all_ok(args.deep_view());
        assert(out.deep_view() =~= Seq::new(
            args.deep_view().len(),
            |j: int| spec_slot_of(args.deep_view()[j]),
        ));
    }
    Ok(out)
}

impl QubitRef {
    /// Resolves one raw argument as a register slot; an argument that is
    /// not qubit-kind is a type mismatch.
    pub fn from_argument(a: &Argument) -> (r: Result<QubitRef, TranslateError>)
        ensures
            a@ matches ArgumentView::Qubit(name, index) ==> r matches Ok(q) && q@ == (
            QubitRefView { name, index }),
            a@ matches ArgumentView::Register(name) ==> r matches Err(e) && e@
                == TranslateErrorView::TypeMismatch(name),
    {
        match a {
            Argument::Qubit(name, index) => Ok(QubitRef(name.clone(), *index)),
            Argument::Register(name) => Err(TranslateError::TypeMismatch(name.clone())),
        }
    }

    /// Resolves an argument list expected to hold exactly one slot.
    pub fn from_arguments(args: &Vec<Argument>) -> (r: Result<QubitRef, TranslateError>)
        ensures
            match spec_resolve(args.deep_view(), 1) {
                Ok(slots) => r matches Ok(q) && q@ == slots[0],
                Err(e) => r matches Err(err) && err@ == e,
            },
    {
        match resolve_arguments(args, 1) {
            Ok(mut slots) => {
                let q = slots.pop().unwrap();
                Ok(q)
            },
            Err(e) => Err(e),
        }
    }
}

/// An ordered pair of resolved operands; the first is the control or first
/// operand, preserving the argument list's left-to-right order.
#[derive(Debug)]
pub struct Pair<T, U>(pub T, pub U);

impl Pair<QubitRef, QubitRef> {
    /// Resolves an argument list expected to hold exactly two slots.
    pub fn from_arguments(args: &Vec<Argument>) -> (r: Result<
        Pair<QubitRef, QubitRef>,
        TranslateError,
    >)
        ensures
            match spec_resolve(args.deep_view(), 2) {
                Ok(slots) => r matches Ok(p) && p.0@ == slots[0] && p.1@ == slots[1],
                Err(e) => r matches Err(err) && err@ == e,
            },
    {
        match resolve_arguments(args, 2) {
            Ok(mut slots) => {
                let second = slots.pop().unwrap();
                let first = slots.pop().unwrap();
                Ok(Pair(first, second))
            },
            Err(e) => Err(e),
        }
    }
}

} // verus!
