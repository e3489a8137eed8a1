//! Translation of structural type declarations into TypeScript type text.
//!
//! The crate receives an already-parsed declaration tree (type aliases,
//! structs and enums, with the type expressions nested inside them) and
//! turns it into TypeScript source text: `export type` aliases,
//! `export interface` declarations, and tagged discriminated unions.
//! Constructs that cannot be translated are reported through an ordered
//! list of diagnostics, never silently dropped.

pub mod ast;
pub mod emit;
pub mod laws;
pub mod model;

pub use ast::{
    Declaration, Diagnostic, DiagnosticView, EnumVariant, Field, FieldList, SourceFile,
    Translation, TypeExpression,
};
pub use emit::{
    create_initial_types, parse_item_enum, parse_item_struct, parse_item_type, parse_syn_file,
    parse_type, parse_type_ident, run,
};
