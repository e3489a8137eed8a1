//! The declaration tree that the translator consumes, and the diagnostics
//! it reports.
//!
//! The tree is produced by an external parser and is read-only here: the
//! translator walks it and emits text, it never mutates or re-validates it.

use vstd::prelude::*;

verus! {

/// A (possibly nested) reference to a type, as it appears inside aliases,
/// fields and enum variants.
#[derive(Debug, PartialEq)]
pub enum TypeExpression {
    /// A path type such as `i32`, `String` or `HashMap<String, Colour>`:
    /// the final path segment's identifier plus its generic arguments.
    NamedPath { name: String, generic_args: Vec<TypeExpression> },
    /// A tuple type `(A, B, ...)`; zero and one element tuples are legal.
    Tuple { elements: Vec<TypeExpression> },
    /// A type expression kind the translator does not handle (references,
    /// slices, function pointers, ...); `description` says which.
    Unsupported { description: String },
}

/// A single named field of a struct or of a struct-like enum variant.
#[derive(Debug, PartialEq)]
pub struct Field {
    pub name: String,
    pub ty: TypeExpression,
}

/// The field shape shared by structs and enum variants.
#[derive(Debug, PartialEq)]
pub enum FieldList {
    /// `{ name: Type, ... }`
    Named(Vec<Field>),
    /// `(Type, ...)`
    Unnamed(Vec<TypeExpression>),
    /// No fields at all.
    Unit,
}

/// One variant of an enum declaration.
#[derive(Debug, PartialEq)]
pub struct EnumVariant {
    pub name: String,
    pub fields: FieldList,
}

/// A top-level declaration of the input file.
#[derive(Debug, PartialEq)]
pub enum Declaration {
    /// `type Name = Type;`
    TypeAlias { name: String, aliased: TypeExpression },
    /// `struct Name { ... }`, `struct Name(...)` or `struct Name;`
    Struct { name: String, fields: FieldList },
    /// `enum Name { ... }`
    Enum { name: String, variants: Vec<EnumVariant> },
    /// A declaration kind outside the supported set (functions, impls,
    /// modules, ...); it is skipped and reported, `kind` says which.
    Unsupported { kind: String },
}

/// A parsed input file: its declarations in source order.
#[derive(Debug, PartialEq)]
pub struct SourceFile {
    pub items: Vec<Declaration>,
}

/// One reported problem: a construct that was skipped or degraded during
/// translation. Diagnostics are collected in the order the translator
/// encountered them.
#[derive(Debug, Clone, PartialEq)]
pub enum Diagnostic {
    /// A type expression kind that cannot be translated; the sentinel text
    /// `unknown` stands in for it in the output.
    UnsupportedType { description: String },
    /// A declaration kind that cannot be translated; `position` is its
    /// zero-based index among the file's declarations. Nothing is emitted
    /// for it.
    UnsupportedDeclaration { kind: String, position: usize },
    /// An enum variant with more than one unnamed field: only the last
    /// field's type is honoured, the earlier ones are dropped.
    ExtraUnnamedVariantFields { variant: String },
}

/// The mathematical value of a [`Diagnostic`]: the same variants over
/// sequences of characters instead of `String`s.
pub enum DiagnosticView {
    UnsupportedType { description: Seq<char> },
    UnsupportedDeclaration { kind: Seq<char>, position: int },
    ExtraUnnamedVariantFields { variant: Seq<char> },
}

impl View for Diagnostic {
    type V = DiagnosticView;

    open spec fn view(&self) -> DiagnosticView {
        match self {
            Diagnostic::UnsupportedType { description } => DiagnosticView::UnsupportedType {
                description: description@,
            },
            Diagnostic::UnsupportedDeclaration { kind, position } => {
                DiagnosticView::UnsupportedDeclaration { kind: kind@, position: *position as int }
            },
            Diagnostic::ExtraUnnamedVariantFields { variant } => {
                DiagnosticView::ExtraUnnamedVariantFields { variant: variant@ }
            },
        }
    }
}

impl DeepView for Diagnostic {
    type V = DiagnosticView;

    open spec fn deep_view(&self) -> DiagnosticView {
        self.view()
    }
}

/// The result of translating a whole file: the assembled output text and
/// every diagnostic the run produced, in order.
#[derive(Debug, Clone, PartialEq)]
pub struct Translation {
    pub text: String,
    pub diagnostics: Vec<Diagnostic>,
}

} // verus!
