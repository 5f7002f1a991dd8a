//! The schema abstract syntax tree, as the rules read it.
//!
//! Each executable node carries plain values (strings, vectors, spans); its
//! view is the corresponding mathematical value, over `Seq<char>` and `Seq`,
//! that the rules' contracts speak of.

use vstd::prelude::*;

verus! {

/// A range into the original source text; rules only attach it to
/// diagnostics, they never compare spans structurally.
#[derive(Clone, Copy, Debug, PartialEq, Eq, Structural)]
pub struct Span {
    pub start: usize,
    pub end: usize,
}

/// An argument of an attribute. The rules only care whether it is a string
/// literal; every other value shape is `Other`.
#[derive(Clone, Debug, PartialEq, Eq)]
pub enum Argument {
    StringValue(String),
    Other,
}

/// The mathematical value of an [`Argument`].
pub ghost enum ArgumentView {
    StringValue(Seq<char>),
    Other,
}

impl View for Argument {
    type V = ArgumentView;

    open spec fn view(&self) -> ArgumentView {
        match self {
            Argument::StringValue(s) => ArgumentView::StringValue(s@),
            Argument::Other => ArgumentView::Other,
        }
    }
}

/// A named annotation on a field, carrying zero or more arguments in source
/// order.
#[derive(Clone, Debug, PartialEq, Eq)]
pub struct Attribute {
    pub name: String,
    pub arguments: Vec<Argument>,
}

/// The mathematical value of an [`Attribute`].
pub ghost struct AttributeView {
    pub name: Seq<char>,
    pub arguments: Seq<ArgumentView>,
}

impl View for Attribute {
    type V = AttributeView;

    open spec fn view(&self) -> AttributeView {
        AttributeView {
            name: self.name@,
            arguments: Seq::new(self.arguments@.len(), |i: int| self.arguments@[i]@),
        }
    }
}

/// A named member of a model, with its attributes in source order and the
/// span of the field declaration.
#[derive(Clone, Debug, PartialEq, Eq)]
pub struct Field {
    pub name: String,
    pub attributes: Vec<Attribute>,
    pub span: Span,
}

/// The mathematical value of a [`Field`].
pub ghost struct FieldView {
    pub name: Seq<char>,
    pub attributes: Seq<AttributeView>,
    pub span: Span,
}

impl View for Field {
    type V = FieldView;

    open spec fn view(&self) -> FieldView {
        FieldView {
            name: self.name@,
            attributes: Seq::new(self.attributes@.len(), |i: int| self.attributes@[i]@),
            span: self.span,
        }
    }
}

/// A named record type with an ordered field list and the span of the whole
/// declaration.
#[derive(Clone, Debug, PartialEq, Eq)]
pub struct Model {
    pub name: String,
    pub fields: Vec<Field>,
    pub span: Span,
}

/// The mathematical value of a [`Model`].
pub ghost struct ModelView {
    pub name: Seq<char>,
    pub fields: Seq<FieldView>,
    pub span: Span,
}

impl View for Model {
    type V = ModelView;

    open spec fn view(&self) -> ModelView {
        ModelView {
            name: self.name@,
            fields: Seq::new(self.fields@.len(), |i: int| self.fields@[i]@),
            span: self.span,
        }
    }
}

/// A named enumeration declaration; the style rules leave it untouched.
#[derive(Clone, Debug, PartialEq, Eq)]
pub struct EnumDecl {
    pub name: String,
    pub span: Span,
}

/// The mathematical value of an [`EnumDecl`].
pub ghost struct EnumDeclView {
    pub name: Seq<char>,
    pub span: Span,
}

impl View for EnumDecl {
    type V = EnumDeclView;

    open spec fn view(&self) -> EnumDeclView {
        EnumDeclView { name: self.name@, span: self.span }
    }
}

/// A top-level declaration. Only models are inspected by the rules; enums and
/// the remaining declaration kinds (config blocks and the like) pass through
/// untouched.
#[derive(Clone, Debug, PartialEq, Eq)]
pub enum Top {
    Model(Model),
    Enum(EnumDecl),
    Other,
}

/// The mathematical value of a [`Top`].
pub ghost enum TopView {
    Model(ModelView),
    Enum(EnumDeclView),
    Other,
}

impl View for Top {
    type V = TopView;

    open spec fn view(&self) -> TopView {
        match self {
            Top::Model(m) => TopView::Model(m@),
            Top::Enum(e) => TopView::Enum(e@),
            Top::Other => TopView::Other,
        }
    }
}

/// The whole parsed schema: top-level declarations in source order. Immutable
/// for the lifetime of a validation pass.
#[derive(Clone, Debug, PartialEq, Eq)]
pub struct SchemaAst {
    pub tops: Vec<Top>,
}

impl View for SchemaAst {
    type V = Seq<TopView>;

    open spec fn view(&self) -> Seq<TopView> {
        Seq::new(self.tops@.len(), |i: int| self.tops@[i]@)
    }
}

} // verus!
