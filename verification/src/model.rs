//! The specification of the emitted text: for every node of the
//! declaration tree, the exact sequence of characters the translator
//! produces and the exact diagnostics it reports.

use vstd::prelude::*;

use crate::ast::Declaration;
use crate::ast::DiagnosticView;
use crate::ast::EnumVariant;
use crate::ast::Field;
use crate::ast::FieldList;
use crate::ast::TypeExpression;

verus! {

/// The fixed helper-alias block emitted before any translated declaration.
pub open spec fn prelude_text() -> Seq<char> {
    "type HashSet<T extends number | string> = Record<T, undefined>;"@
        + "type HashMap<T extends number | string, U> = Record<T, U>;"@ + "type Vec<T> = Array<T>;"@
        + "type Option<T> = T | undefined;"@ + "type Result<T, U> = T | U;"@
}

/// Source identifiers that map to the TypeScript `number` type: signed and
/// unsigned integers of any declared width, floating point types, and the
/// machine-word-sized integer aliases.
pub open spec fn is_number_name(name: Seq<char>) -> bool {
    ||| name == "i8"@
    ||| name == "i16"@
    ||| name == "i32"@
    ||| name == "i64"@
    ||| name == "i128"@
    ||| name == "u8"@
    ||| name == "u16"@
    ||| name == "u32"@
    ||| name == "u64"@
    ||| name == "u128"@
    ||| name == "f32"@
    ||| name == "f64"@
    ||| name == "isize"@
    ||| name == "usize"@
}

/// Source identifiers that map to the TypeScript `string` type: the
/// string-like and single-character types.
pub open spec fn is_string_name(name: Seq<char>) -> bool {
    ||| name == "str"@
    ||| name == "&str"@
    ||| name == "String"@
    ||| name == "char"@
}

/// A name the primitive mapper recognizes and replaces.
pub open spec fn is_primitive_name(name: Seq<char>) -> bool {
    is_number_name(name) || is_string_name(name) || name == "bool"@
}

/// The primitive mapping table: a recognized primitive becomes the
/// corresponding TypeScript primitive, every other identifier passes
/// through unchanged (it is taken as a reference to a user-defined or
/// already-translated name).
pub open spec fn primitive_text(name: Seq<char>) -> Seq<char> {
    if is_number_name(name) {
        "number"@
    } else if is_string_name(name) {
        "string"@
    } else if name == "bool"@ {
        "boolean"@
    } else {
        name
    }
}

/// The text of one translated type expression.
///
/// An unsupported node renders as the sentinel `unknown`; the matching
/// diagnostic is given by [`type_diags`], so the sentinel never appears
/// without a report.
pub open spec fn type_text(t: TypeExpression) -> Seq<char>
    decreases t,
{
    match t {
        TypeExpression::NamedPath { name, generic_args } => {
            if generic_args@.len() == 0 {
                primitive_text(name@)
            } else {
                primitive_text(name@) + "<"@ + args_text(generic_args@) + ">"@
            }
        },
        TypeExpression::Tuple { elements } => "["@ + args_text(elements@) + "]"@,
        TypeExpression::Unsupported { .. } => "unknown"@,
    }
}

/// A comma-separated list of translated type expressions, order preserved,
/// no trailing comma.
pub open spec fn args_text(args: Seq<TypeExpression>) -> Seq<char>
    decreases args,
{
    if args.len() == 0 {
        Seq::<char>::empty()
    } else {
        args_text(args.subrange(0, args.len() - 1)) + (if args.len() == 1 {
            Seq::<char>::empty()
        } else {
            ","@
        }) + type_text(args[args.len() - 1])
    }
}

/// The diagnostics reported while translating one type expression, in
/// depth-first, left-to-right order: one entry for every unsupported node.
pub open spec fn type_diags(t: TypeExpression) -> Seq<DiagnosticView>
    decreases t,
{
    match t {
        TypeExpression::NamedPath { generic_args, .. } => args_diags(generic_args@),
        TypeExpression::Tuple { elements } => args_diags(elements@),
        TypeExpression::Unsupported { description } => seq![
            DiagnosticView::UnsupportedType { description: description@ },
        ],
    }
}

/// The diagnostics of a list of type expressions, element order preserved.
pub open spec fn args_diags(args: Seq<TypeExpression>) -> Seq<DiagnosticView>
    decreases args,
{
    if args.len() == 0 {
        Seq::<DiagnosticView>::empty()
    } else {
        args_diags(args.subrange(0, args.len() - 1)) + type_diags(args[args.len() - 1])
    }
}

/// The character for one decimal digit.
pub open spec fn digit_char(d: int) -> char {
    if d == 0 {
        '0'
    } else if d == 1 {
        '1'
    } else if d == 2 {
        '2'
    } else if d == 3 {
        '3'
    } else if d == 4 {
        '4'
    } else if d == 5 {
        '5'
    } else if d == 6 {
        '6'
    } else if d == 7 {
        '7'
    } else if d == 8 {
        '8'
    } else {
        '9'
    }
}

/// The usual decimal rendering of a number, most significant digit first,
/// no leading zeros (`0` renders as `0`).
pub open spec fn dec_text(n: nat) -> Seq<char>
    decreases n,
{
    if n < 10 {
        seq![digit_char(n as int)]
    } else {
        dec_text(n / 10) + seq![digit_char((n % 10) as int)]
    }
}

/// The members of an interface with named fields: `name:type;` for each
/// field, in declaration order.
pub open spec fn named_fields_text(fields: Seq<Field>) -> Seq<char>
    decreases fields,
{
    if fields.len() == 0 {
        Seq::<char>::empty()
    } else {
        named_fields_text(fields.subrange(0, fields.len() - 1)) + fields[fields.len() - 1].name@
            + ":"@ + type_text(fields[fields.len() - 1].ty) + ";"@
    }
}

/// The diagnostics of a list of named fields, in field order.
pub open spec fn named_fields_diags(fields: Seq<Field>) -> Seq<DiagnosticView>
    decreases fields,
{
    if fields.len() == 0 {
        Seq::<DiagnosticView>::empty()
    } else {
        named_fields_diags(fields.subrange(0, fields.len() - 1)) + type_diags(
            fields[fields.len() - 1].ty,
        )
    }
}

/// The members of an interface for a tuple-style struct: the member key is
/// the zero-based positional index rendered in decimal, aligning with the
/// element-indexed convention such structs meet at a serialization
/// boundary.
pub open spec fn indexed_fields_text(tys: Seq<TypeExpression>) -> Seq<char>
    decreases tys,
{
    if tys.len() == 0 {
        Seq::<char>::empty()
    } else {
        indexed_fields_text(tys.subrange(0, tys.len() - 1)) + dec_text((tys.len() - 1) as nat)
            + ":"@ + type_text(tys[tys.len() - 1]) + ";"@
    }
}

/// The body of the interface emitted for a struct, by field shape.
pub open spec fn struct_body_text(fields: FieldList) -> Seq<char> {
    match fields {
        FieldList::Named(fs) => named_fields_text(fs@),
        FieldList::Unnamed(tys) => indexed_fields_text(tys@),
        FieldList::Unit => Seq::<char>::empty(),
    }
}

/// The diagnostics reported while translating a struct's fields.
pub open spec fn struct_body_diags(fields: FieldList) -> Seq<DiagnosticView> {
    match fields {
        FieldList::Named(fs) => named_fields_diags(fs@),
        FieldList::Unnamed(tys) => args_diags(tys@),
        FieldList::Unit => Seq::<DiagnosticView>::empty(),
    }
}

/// `export type <name> = <aliased>;`
pub open spec fn alias_text(name: Seq<char>, aliased: TypeExpression) -> Seq<char> {
    "export type "@ + name + " = "@ + type_text(aliased) + ";"@
}

/// `export interface <name> { <members> };`
pub open spec fn struct_text(name: Seq<char>, fields: FieldList) -> Seq<char> {
    "export interface "@ + name + " {"@ + struct_body_text(fields) + "};"@
}

/// The payload member of one tagged union alternative: an inline object
/// for named fields, the translated type of the last unnamed field (the
/// honoured one), and the absent-value type `undefined` when the variant
/// carries no payload.
pub open spec fn payload_text(fields: FieldList) -> Seq<char> {
    match fields {
        FieldList::Named(fs) => "{"@ + named_fields_text(fs@) + "}"@,
        FieldList::Unnamed(tys) => if tys.len() == 0 {
            "undefined"@
        } else {
            type_text(tys[tys.len() - 1])
        },
        FieldList::Unit => "undefined"@,
    }
}

/// The diagnostics of one variant's payload. A variant with more than one
/// unnamed field keeps only its last field, so the drop is reported first,
/// then whatever the honoured field's type itself reports.
pub open spec fn payload_diags(variant_name: Seq<char>, fields: FieldList) -> Seq<DiagnosticView> {
    match fields {
        FieldList::Named(fs) => named_fields_diags(fs@),
        FieldList::Unnamed(tys) => (if tys.len() > 1 {
            seq![DiagnosticView::ExtraUnnamedVariantFields { variant: variant_name }]
        } else {
            Seq::<DiagnosticView>::empty()
        }) + (if tys.len() == 0 {
            Seq::<DiagnosticView>::empty()
        } else {
            type_diags(tys[tys.len() - 1])
        }),
        FieldList::Unit => Seq::<DiagnosticView>::empty(),
    }
}

/// One tagged alternative of the union emitted for an enum: a two-member
/// object holding the variant name as a literal string (the tag) and the
/// payload. This is the single supported discriminated-union convention.
pub open spec fn variant_text(v: EnumVariant) -> Seq<char> {
    "| { t: \""@ + v.name@ + "\" , c: "@ + payload_text(v.fields) + "}"@
}

/// All alternatives of an enum's union, in variant order, each preceded by
/// a single separating space.
pub open spec fn variants_text(vs: Seq<EnumVariant>) -> Seq<char>
    decreases vs,
{
    if vs.len() == 0 {
        Seq::<char>::empty()
    } else {
        variants_text(vs.subrange(0, vs.len() - 1)) + " "@ + variant_text(vs[vs.len() - 1])
    }
}

/// The diagnostics of an enum's variants, in variant order.
pub open spec fn variants_diags(vs: Seq<EnumVariant>) -> Seq<DiagnosticView>
    decreases vs,
{
    if vs.len() == 0 {
        Seq::<DiagnosticView>::empty()
    } else {
        variants_diags(vs.subrange(0, vs.len() - 1)) + payload_diags(
            vs[vs.len() - 1].name@,
            vs[vs.len() - 1].fields,
        )
    }
}

/// `export type <name> = <alt> | <alt> | ...;`
pub open spec fn enum_text(name: Seq<char>, vs: Seq<EnumVariant>) -> Seq<char> {
    "export type "@ + name + " ="@ + variants_text(vs) + ";"@
}

/// The text one declaration contributes to the output. A declaration kind
/// outside the supported set contributes nothing; [`decl_diags`] reports
/// it.
pub open spec fn decl_text(d: Declaration) -> Seq<char> {
    match d {
        Declaration::TypeAlias { name, aliased } => alias_text(name@, aliased),
        Declaration::Struct { name, fields } => struct_text(name@, fields),
        Declaration::Enum { name, variants } => enum_text(name@, variants@),
        Declaration::Unsupported { .. } => Seq::<char>::empty(),
    }
}

/// The diagnostics one declaration contributes; `position` is its
/// zero-based index among the file's declarations.
pub open spec fn decl_diags(d: Declaration, position: int) -> Seq<DiagnosticView> {
    match d {
        Declaration::TypeAlias { aliased, .. } => type_diags(aliased),
        Declaration::Struct { fields, .. } => struct_body_diags(fields),
        Declaration::Enum { variants, .. } => variants_diags(variants@),
        Declaration::Unsupported { kind } => seq![
            DiagnosticView::UnsupportedDeclaration { kind: kind@, position },
        ],
    }
}

/// The translated text of a whole file's declarations, in input order,
/// with no separators beyond what each declaration's own text ends with.
pub open spec fn decls_text(ds: Seq<Declaration>) -> Seq<char>
    decreases ds,
{
    if ds.len() == 0 {
        Seq::<char>::empty()
    } else {
        decls_text(ds.subrange(0, ds.len() - 1)) + decl_text(ds[ds.len() - 1])
    }
}

/// The diagnostics of a whole file's declarations, in input order.
pub open spec fn decls_diags(ds: Seq<Declaration>) -> Seq<DiagnosticView>
    decreases ds,
{
    if ds.len() == 0 {
        Seq::<DiagnosticView>::empty()
    } else {
        decls_diags(ds.subrange(0, ds.len() - 1)) + decl_diags(ds[ds.len() - 1], ds.len() - 1)
    }
}

} // verus!
