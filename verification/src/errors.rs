//! The failure taxonomy of translation.

use vstd::prelude::*;

verus! {

/// A failure raised while translating one statement.
///
/// Resolver and dispatcher failures are local and synchronous: the statement
/// that raised one appends nothing to the model.
#[derive(Debug, PartialEq, Eq)]
pub enum TranslateError {
    /// The argument (or angle-parameter) list has the wrong length for the
    /// instruction: the declared count, and the count found.
    ArityMismatch { expected: usize, actual: usize },
    /// An argument of the wrong kind where a qubit reference is required;
    /// carries the register name the offending argument mentions.
    TypeMismatch(String),
    /// A gate name the translator knows no instruction for.
    UnsupportedGate(String),
    /// The external emitter could not serialize or write the model; carries
    /// the emitter's message verbatim.
    EmissionFailure(String),
}

/// The mathematical value of a `TranslateError`.
pub enum TranslateErrorView {
    ArityMismatch { expected: int, actual: int },
    TypeMismatch(Seq<char>),
    UnsupportedGate(Seq<char>),
    EmissionFailure(Seq<char>),
}

impl View for TranslateError {
    type V = TranslateErrorView;

    open spec fn view(&self) -> TranslateErrorView {
        match self {
            TranslateError::ArityMismatch { expected, actual } => (TranslateErrorView::ArityMismatch {
                expected: *expected as int,
                actual: *actual as int,
            }),
            TranslateError::TypeMismatch(name) => TranslateErrorView::TypeMismatch(name@),
            TranslateError::UnsupportedGate(name) => TranslateErrorView::UnsupportedGate(name@),
            TranslateError::EmissionFailure(msg) => TranslateErrorView::EmissionFailure(msg@),
        }
    }
}

impl DeepView for TranslateError {
    type V = TranslateErrorView;

    open spec fn deep_view(&self) -> TranslateErrorView {
        self.view()
    }
}

/// One collected failure, with the position of the statement that raised
/// it: the statement group's index and the node's index within the group.
#[derive(Debug, PartialEq, Eq)]
pub struct ErrorAt {
    pub group: usize,
    pub node: usize,
    pub error: TranslateError,
}

/// The mathematical value of an `ErrorAt`.
pub struct ErrorAtView {
    pub group: int,
    pub node: int,
    pub error: TranslateErrorView,
}

impl View for ErrorAt {
    type V = ErrorAtView;

    open spec fn view(&self) -> ErrorAtView {
        ErrorAtView { group: self.group as int, node: self.node as int, error: self.error@ }
    }
}

impl DeepView for ErrorAt {
    type V = ErrorAtView;

    open spec fn deep_view(&self) -> ErrorAtView {
        self.view()
    }
}

} // verus!
