//! Diagnostics: reported validation findings and the append-only sink that
//! collects them.

use vstd::prelude::*;

verus! {

use crate::ast::Span;

/// The category label of a diagnostic, sufficient for a renderer to group
/// findings: a structural violation of a whole model, or a validation error
/// of a named attribute.
#[derive(Clone, Debug, PartialEq, Eq)]
pub enum DiagnosticKind {
    InvalidModel,
    AttributeValidation { attribute: String },
}

/// The mathematical value of a [`DiagnosticKind`].
pub ghost enum DiagnosticKindView {
    InvalidModel,
    AttributeValidation { attribute: Seq<char> },
}

impl View for DiagnosticKind {
    type V = DiagnosticKindView;

    open spec fn view(&self) -> DiagnosticKindView {
        match self {
            DiagnosticKind::InvalidModel => DiagnosticKindView::InvalidModel,
            DiagnosticKind::AttributeValidation { attribute } => {
                DiagnosticKindView::AttributeValidation { attribute: attribute@ }
            },
        }
    }
}

/// One reported finding: a message, a category label, and the source span to
/// anchor the rendering at.
#[derive(Clone, Debug, PartialEq, Eq)]
pub struct Diagnostic {
    pub message: String,
    pub kind: DiagnosticKind,
    pub span: Span,
}

/// The mathematical value of a [`Diagnostic`].
pub ghost struct DiagnosticView {
    pub message: Seq<char>,
    pub kind: DiagnosticKindView,
    pub span: Span,
}

impl View for Diagnostic {
    type V = DiagnosticView;

    open spec fn view(&self) -> DiagnosticView {
        DiagnosticView { message: self.message@, kind: self.kind@, span: self.span }
    }
}

impl Diagnostic {
    /// A structural violation of a whole model, anchored at the model's span.
    pub fn new_invalid_model_error(message: &str, span: Span) -> (r: Diagnostic)
        ensures
            r@ == (DiagnosticView {
                message: message@,
                kind: DiagnosticKindView::InvalidModel,
                span,
            }),
    {
        Diagnostic { message: message.to_owned(), kind: DiagnosticKind::InvalidModel, span }
    }

    /// A validation error of the named attribute, anchored at the span of the
    /// construct that carries (or should carry) it.
    pub fn new_attribute_validation_error(message: &str, attribute: &str, span: Span) -> (r:
        Diagnostic)
        ensures
            r@ == (DiagnosticView {
                message: message@,
                kind: DiagnosticKindView::AttributeValidation { attribute: attribute@ },
                span,
            }),
    {
        Diagnostic {
            message: message.to_owned(),
            kind: DiagnosticKind::AttributeValidation { attribute: attribute.to_owned() },
            span,
        }
    }
}

/// The append-only, order-preserving collection of findings for one
/// validation pass. It never deduplicates and never reorders: its view is
/// exactly the sequence of pushed diagnostics, oldest first.
#[derive(Clone, Debug, PartialEq, Eq)]
pub struct Diagnostics {
    errors: Vec<Diagnostic>,
}

impl View for Diagnostics {
    type V = Seq<DiagnosticView>;

    closed spec fn view(&self) -> Seq<DiagnosticView> {
        Seq::new(self.errors@.len(), |i: int| self.errors@[i]@)
    }
}

impl Diagnostics {
    /// The empty sink a validation pass starts from.
    pub fn new() -> (r: Diagnostics)
        ensures
            r@ == Seq::<DiagnosticView>::empty(),
    {
        let r = Diagnostics { errors: Vec::new() };
        proof {
            assert(r@ =~= Seq::<DiagnosticView>::empty());
        }
        r
    }

    /// Appends one finding; everything already collected stays in place.
    pub fn push_error(&mut self, error: Diagnostic)
        ensures
            final(self)@ == old(self)@.push(error@),
    {
        let ghost e = error@;
        self.errors.push(error);
        proof {
            assert(self@ =~= old(self)@.push(e));
        }
    }

    /// The findings collected so far, in emission order.
    pub fn errors(&self) -> (r: &Vec<Diagnostic>)
        ensures
            r@.len() == self@.len(),
            forall|i: int| 0 <= i < r@.len() ==> r@[i]@ == self@[i],
    {
        &self.errors
    }
}

} // verus!
