use vstd::prelude::*;
use crate::schema::Span;

verus! {

/// What went wrong while reading a record definition.
#[derive(Clone, Copy, Debug, PartialEq, Eq, Structural)]
pub enum DiagnosticKind {
    /// The input is not a struct with named fields.
    UnsupportedShape,
    /// A `builder` attribute does not have the shape `builder(each = "name")`.
    MalformedAttribute,
    /// A field carries `builder(each = ...)` but its type is not `Vec<T>`.
    AccumulatorNotSequence,
}

/// A located, generation-time error. Any such error aborts synthesis.
#[derive(Clone, Copy, Debug, PartialEq, Eq, Structural)]
pub struct Diagnostic {
    pub span: Span,
    pub kind: DiagnosticKind,
}

/// The fixed message of each kind of diagnostic.
pub open spec fn message_text(kind: DiagnosticKind) -> Seq<char> {
    match kind {
        DiagnosticKind::UnsupportedShape => "only structs with named fields are supported"@,
        DiagnosticKind::MalformedAttribute => "expected `builder(each = \"...\")`"@,
        DiagnosticKind::AccumulatorNotSequence => "`each` requires a field of type `Vec<...>`"@,
    }
}

impl Diagnostic {
    pub fn new(span: Span, kind: DiagnosticKind) -> (r: Diagnostic)
        ensures
            r.span == span,
            r.kind == kind,
    {
        Diagnostic { span, kind }
    }

    /// The human-readable message of this diagnostic.
    pub fn message(&self) -> (r: &'static str)
        ensures
            r@ == message_text(self.kind),
    {
        match self.kind {
            DiagnosticKind::UnsupportedShape => "only structs with named fields are supported",
            DiagnosticKind::MalformedAttribute => "expected `builder(each = \"...\")`",
            DiagnosticKind::AccumulatorNotSequence => "`each` requires a field of type `Vec<...>`",
        }
    }
}

} // verus!
