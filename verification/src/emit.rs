//! The executable translators: they walk the declaration tree and build
//! the output text that [`crate::model`] specifies.

use vstd::prelude::*;
use vstd::string::{StrSliceExecFns, StringExecFns};

use crate::ast::Declaration;
use crate::ast::Diagnostic;
use crate::ast::DiagnosticView;
use crate::ast::EnumVariant;
use crate::ast::Field;
use crate::ast::FieldList;
use crate::ast::SourceFile;
use crate::ast::Translation;
use crate::ast::TypeExpression;
use crate::model::alias_text;
use crate::model::decls_diags;
use crate::model::decls_text;
use crate::model::enum_text;
use crate::model::payload_diags;
use crate::model::payload_text;
use crate::model::variants_diags;
use crate::model::variants_text;
use crate::model::args_diags;
use crate::model::args_text;
use crate::model::dec_text;
use crate::model::digit_char;
use crate::model::named_fields_diags;
use crate::model::indexed_fields_text;
use crate::model::named_fields_text;
use crate::model::prelude_text;
use crate::model::primitive_text;
use crate::model::struct_body_diags;
use crate::model::struct_text;
use crate::model::type_diags;
use crate::model::type_text;

verus! {

/// Character-by-character string comparison, so that the primitive mapper
/// can be verified without relying on an unspecified `&str` equality.
fn str_eq(a: &str, b: &str) -> (r: bool)
    ensures
        r == (a@ == b@),
{
    let a_len = a.unicode_len();
    let b_len = b.unicode_len();
    if a_len != b_len {
        return false;
    }
    let mut i: usize = 0;
    while i < a_len
        invariant
            i <= a_len,
            a_len == a@.len(),
            b_len == b@.len(),
            a_len == b_len,
            forall|j: int| 0 <= j < i ==> a@[j] == b@[j],
        decreases a_len - i,
    {
        let ca = a.get_char(i);
        let cb = b.get_char(i);
        if ca != cb {
            return false;
        }
        i += 1;
    }
    proof {
        assert(a@ =~= b@);
    }
    true
}

/// Appends one diagnostic to the run's ordered list.
fn push_diag(diagnostics: &mut Vec<Diagnostic>, d: Diagnostic)
    ensures
        final(diagnostics).deep_view() == old(diagnostics).deep_view() + seq![d@],
{
    let ghost before = diagnostics.deep_view();
    diagnostics.push(d);
    proof {
        assert(diagnostics.deep_view() =~= before + seq![d@]);
    }
}

/// The primitive mapper: returns the TypeScript primitive corresponding to
/// a source type identifier, or the identifier itself when it is not a
/// recognized primitive. Total: there is no error case.
pub fn parse_type_ident<'a>(ident: &'a str) -> (r: &'a str)
    ensures
        r@ == primitive_text(ident@),
{
    if str_eq(ident, "i8") || str_eq(ident, "i16") || str_eq(ident, "i32") || str_eq(ident, "i64")
        || str_eq(ident, "i128") || str_eq(ident, "u8") || str_eq(ident, "u16") || str_eq(
        ident,
        "u32",
    ) || str_eq(ident, "u64") || str_eq(ident, "u128") || str_eq(ident, "f32") || str_eq(
        ident,
        "f64",
    ) || str_eq(ident, "isize") || str_eq(ident, "usize") {
        "number"
    } else if str_eq(ident, "str") || str_eq(ident, "&str") || str_eq(ident, "String") || str_eq(
        ident,
        "char",
    ) {
        "string"
    } else if str_eq(ident, "bool") {
        "boolean"
    } else {
        ident
    }
}

/// Translates one type expression into TypeScript type text.
///
/// A named path with no generic arguments becomes the mapped primitive or
/// pass-through name; one with arguments appends the recursively
/// translated argument list in angle brackets; a tuple becomes its
/// bracketed element list. An unsupported node yields the sentinel text
/// `unknown` and always reports a diagnostic, so the sentinel never
/// passes for a successful translation.
pub fn parse_type(syn_type: &TypeExpression, diagnostics: &mut Vec<Diagnostic>) -> (r: String)
    ensures
        r@ == type_text(*syn_type),
        final(diagnostics).deep_view() == old(diagnostics).deep_view() + type_diags(*syn_type),
    decreases *syn_type,
{
    match syn_type {
        TypeExpression::NamedPath { name, generic_args } => {
            let mut output = parse_type_ident(name.as_str()).to_owned();
            if generic_args.len() > 0 {
                output.append("<");
                let list = parse_type_list(generic_args, diagnostics);
                output.append(list.as_str());
                output.append(">");
            }
            output
        },
        TypeExpression::Tuple { elements } => {
            let mut output = "[".to_owned();
            let list = parse_type_list(elements, diagnostics);
            output.append(list.as_str());
            output.append("]");
            output
        },
        TypeExpression::Unsupported { description } => {
            push_diag(
                diagnostics,
                Diagnostic::UnsupportedType { description: description.clone() },
            );
            "unknown".to_owned()
        },
    }
}

/// Translates a list of type expressions into a comma-separated list,
/// order and arity preserved exactly, with no trailing comma.
fn parse_type_list(args: &Vec<TypeExpression>, diagnostics: &mut Vec<Diagnostic>) -> (r: String)
    ensures
        r@ == args_text(args@),
        final(diagnostics).deep_view() == old(diagnostics).deep_view() + args_diags(args@),
    decreases *args,
{
    let mut output = String::new();
    let mut index: usize = 0;
    while index < args.len()
        invariant
            index <= args.len(),
            output@ == args_text(args@.subrange(0, index as int)),
            diagnostics.deep_view() == old(diagnostics).deep_view() + args_diags(
                args@.subrange(0, index as int),
            ),
        decreases args.len() - index,
    {
        if index > 0 {
            output.append(",");
        }
        let arg_text = parse_type(&args[index], diagnostics);
        output.append(arg_text.as_str());
        proof {
            let cur = args@.subrange(0, index as int + 1);
            assert(cur.subrange(0, cur.len() - 1) =~= args@.subrange(0, index as int));
            assert(cur[cur.len() - 1] == args@[index as int]);
        }
        index += 1;
    }
    proof {
        assert(args@.subrange(0, args@.len() as int) =~= args@);
    }
    output
}

/// The one-character text of a single decimal digit.
fn digit_str(d: usize) -> (r: &'static str)
    requires
        d < 10,
    ensures
        r@ == seq![digit_char(d as int)],
{
    let r = match d {
        0 => "0",
        1 => "1",
        2 => "2",
        3 => "3",
        4 => "4",
        5 => "5",
        6 => "6",
        7 => "7",
        8 => "8",
        _ => "9",
    };
    proof {
        reveal_strlit("0");
        reveal_strlit("1");
        reveal_strlit("2");
        reveal_strlit("3");
        reveal_strlit("4");
        reveal_strlit("5");
        reveal_strlit("6");
        reveal_strlit("7");
        reveal_strlit("8");
        reveal_strlit("9");
        assert(r@ =~= seq![digit_char(d as int)]);
    }
    r
}

/// Renders a positional index in decimal, for the member keys of
/// tuple-style structs.
fn format_index(index: usize) -> (r: String)
    ensures
        r@ == dec_text(index as nat),
    decreases index,
{
    if index < 10 {
        digit_str(index).to_owned()
    } else {
        let mut s = format_index(index / 10);
        s.append(digit_str(index % 10));
        s
    }
}

/// Translates a type alias declaration:
/// `export type <name> = <translated aliased type>;`
pub fn parse_item_type(name: &str, aliased: &TypeExpression, diagnostics: &mut Vec<Diagnostic>) -> (r:
    String)
    ensures
        r@ == alias_text(name@, *aliased),
        final(diagnostics).deep_view() == old(diagnostics).deep_view() + type_diags(*aliased),
{
    let mut output = "export type ".to_owned();
    output.append(name);
    output.append(" = ");
    let type_string = parse_type(aliased, diagnostics);
    output.append(type_string.as_str());
    output.append(";");
    output
}

/// Appends the members for a list of named fields, `name:type;` each, in
/// declaration order. Shared by struct interfaces and the inline object
/// payloads of struct-like enum variants.
fn emit_named_fields(
    fields: &Vec<Field>,
    output: &mut String,
    diagnostics: &mut Vec<Diagnostic>,
)
    ensures
        final(output)@ == old(output)@ + named_fields_text(fields@),
        final(diagnostics).deep_view() == old(diagnostics).deep_view() + named_fields_diags(
            fields@,
        ),
{
    let mut i: usize = 0;
    while i < fields.len()
        invariant
            i <= fields.len(),
            output@ == old(output)@ + named_fields_text(fields@.subrange(0, i as int)),
            diagnostics.deep_view() == old(diagnostics).deep_view() + named_fields_diags(
                fields@.subrange(0, i as int),
            ),
        decreases fields.len() - i,
    {
        let field = &fields[i];
        output.append(field.name.as_str());
        output.append(":");
        let field_type = parse_type(&field.ty, diagnostics);
        output.append(field_type.as_str());
        output.append(";");
        proof {
            let cur = fields@.subrange(0, i as int + 1);
            assert(cur.subrange(0, cur.len() - 1) =~= fields@.subrange(0, i as int));
            assert(cur[cur.len() - 1] == fields@[i as int]);
        }
        i += 1;
    }
    proof {
        assert(fields@.subrange(0, fields@.len() as int) =~= fields@);
    }
}

/// Translates a struct declaration into a TypeScript interface:
/// `export interface <name> { <members> };`
///
/// Named fields become members in declaration order; the fields of a
/// tuple-style struct become members keyed by their zero-based positional
/// index; a unit struct becomes an interface with an empty body.
pub fn parse_item_struct(name: &str, fields: &FieldList, diagnostics: &mut Vec<Diagnostic>) -> (r:
    String)
    ensures
        r@ == struct_text(name@, *fields),
        final(diagnostics).deep_view() == old(diagnostics).deep_view() + struct_body_diags(
            *fields,
        ),
{
    let mut output = "export interface ".to_owned();
    output.append(name);
    output.append(" {");
    match fields {
        FieldList::Named(named_fields) => {
            emit_named_fields(named_fields, &mut output, diagnostics);
        },
        FieldList::Unnamed(tys) => {
            let mut i: usize = 0;
            while i < tys.len()
                invariant
                    i <= tys.len(),
                    output@ == "export interface "@ + name@ + " {"@ + indexed_fields_text(
                        tys@.subrange(0, i as int),
                    ),
                    diagnostics.deep_view() == old(diagnostics).deep_view() + args_diags(
                        tys@.subrange(0, i as int),
                    ),
                decreases tys.len() - i,
            {
                let key = format_index(i);
                output.append(key.as_str());
                output.append(":");
                let field_type = parse_type(&tys[i], diagnostics);
                output.append(field_type.as_str());
                output.append(";");
                proof {
                    let cur = tys@.subrange(0, i as int + 1);
                    assert(cur.subrange(0, cur.len() - 1) =~= tys@.subrange(0, i as int));
                    assert(cur[cur.len() - 1] == tys@[i as int]);
                }
                i += 1;
            }
            proof {
                assert(tys@.subrange(0, tys@.len() as int) =~= tys@);
            }
        },
        FieldList::Unit => {},
    }
    output.append("};");
    output
}

/// Appends the payload member of one union alternative.
///
/// Named fields become an inline object; of several unnamed fields only
/// the last is honoured, and the drop is reported, never silent; a unit
/// variant (or an empty unnamed list, which carries no payload either)
/// gets the absent-value type `undefined`.
fn emit_variant_payload(v: &EnumVariant, output: &mut String, diagnostics: &mut Vec<Diagnostic>)
    ensures
        final(output)@ == old(output)@ + payload_text(v.fields),
        final(diagnostics).deep_view() == old(diagnostics).deep_view() + payload_diags(
            v.name@,
            v.fields,
        ),
{
    match &v.fields {
        FieldList::Named(named_fields) => {
            output.append("{");
            emit_named_fields(named_fields, output, diagnostics);
            output.append("}");
        },
        FieldList::Unnamed(tys) => {
            if tys.len() == 0 {
                output.append("undefined");
            } else {
                if tys.len() > 1 {
                    push_diag(
                        diagnostics,
                        Diagnostic::ExtraUnnamedVariantFields { variant: v.name.clone() },
                    );
                }
                let field_type = parse_type(&tys[tys.len() - 1], diagnostics);
                output.append(field_type.as_str());
            }
        },
        FieldList::Unit => {
            output.append("undefined");
        },
    }
}

/// Translates an enum declaration into a single exported union type:
/// `export type <name> = <alt> | <alt> | ...;`
///
/// Each alternative is a two-member tagged object: the member `t` holds
/// the variant name as a literal string and the member `c` holds the
/// payload. This fixed convention is the only one emitted; any alternate
/// tagging scheme expressed in the source is not interpreted.
pub fn parse_item_enum(name: &str, variants: &Vec<EnumVariant>, diagnostics: &mut Vec<Diagnostic>) -> (r:
    String)
    ensures
        r@ == enum_text(name@, variants@),
        final(diagnostics).deep_view() == old(diagnostics).deep_view() + variants_diags(
            variants@,
        ),
{
    let mut output = "export type ".to_owned();
    output.append(name);
    output.append(" =");
    let mut i: usize = 0;
    while i < variants.len()
        invariant
            i <= variants.len(),
            output@ == "export type "@ + name@ + " ="@ + variants_text(
                variants@.subrange(0, i as int),
            ),
            diagnostics.deep_view() == old(diagnostics).deep_view() + variants_diags(
                variants@.subrange(0, i as int),
            ),
        decreases variants.len() - i,
    {
        let v = &variants[i];
        output.append(" ");
        output.append("| { t: \"");
        output.append(v.name.as_str());
        output.append("\" , c: ");
        emit_variant_payload(v, &mut output, diagnostics);
        output.append("}");
        proof {
            let cur = variants@.subrange(0, i as int + 1);
            assert(cur.subrange(0, cur.len() - 1) =~= variants@.subrange(0, i as int));
            assert(cur[cur.len() - 1] == variants@[i as int]);
        }
        i += 1;
    }
    proof {
        assert(variants@.subrange(0, variants@.len() as int) =~= variants@);
    }
    output.append(";");
    output
}

/// Translates every declaration of a parsed file, in input order, and
/// concatenates their text with no additional separators. A declaration
/// of a kind outside the supported set contributes no text; it is
/// reported, with its kind and position, and the run continues with the
/// remaining declarations.
pub fn parse_syn_file(file: &SourceFile, diagnostics: &mut Vec<Diagnostic>) -> (r: String)
    ensures
        r@ == decls_text(file.items@),
        final(diagnostics).deep_view() == old(diagnostics).deep_view() + decls_diags(file.items@),
{
    let mut output_text = String::new();
    let mut i: usize = 0;
    while i < file.items.len()
        invariant
            i <= file.items.len(),
            output_text@ == decls_text(file.items@.subrange(0, i as int)),
            diagnostics.deep_view() == old(diagnostics).deep_view() + decls_diags(
                file.items@.subrange(0, i as int),
            ),
        decreases file.items.len() - i,
    {
        match &file.items[i] {
            Declaration::TypeAlias { name, aliased } => {
                let alias_output = parse_item_type(name.as_str(), aliased, diagnostics);
                output_text.append(alias_output.as_str());
            },
            Declaration::Enum { name, variants } => {
                let enum_output = parse_item_enum(name.as_str(), variants, diagnostics);
                output_text.append(enum_output.as_str());
            },
            Declaration::Struct { name, fields } => {
                let struct_output = parse_item_struct(name.as_str(), fields, diagnostics);
                output_text.append(struct_output.as_str());
            },
            Declaration::Unsupported { kind } => {
                push_diag(
                    diagnostics,
                    Diagnostic::UnsupportedDeclaration { kind: kind.clone(), position: i },
                );
            },
        }
        proof {
            let cur = file.items@.subrange(0, i as int + 1);
            assert(cur.subrange(0, cur.len() - 1) =~= file.items@.subrange(0, i as int));
            assert(cur[cur.len() - 1] == file.items@[i as int]);
        }
        i += 1;
    }
    proof {
        assert(file.items@.subrange(0, file.items@.len() as int) =~= file.items@);
    }
    output_text
}

/// Assembles the full output for a parsed file: the fixed prelude first,
/// then every translated declaration in input order, paired with the
/// ordered diagnostics of everything skipped or degraded. A result with
/// an empty diagnostics list is a full success; one with diagnostics is a
/// partial success whose text is still usable.
pub fn run(file: &SourceFile) -> (r: Translation)
    ensures
        r.text@ == prelude_text() + decls_text(file.items@),
        r.diagnostics.deep_view() == decls_diags(file.items@),
{
    let mut diagnostics: Vec<Diagnostic> = Vec::new();
    proof {
        assert(diagnostics.deep_view() =~= Seq::<DiagnosticView>::empty());
    }
    let mut output_text = create_initial_types();
    let body = parse_syn_file(file, &mut diagnostics);
    output_text.append(body.as_str());
    proof {
        assert(Seq::<DiagnosticView>::empty() + decls_diags(file.items@) =~= decls_diags(
            file.items@,
        ));
    }
    Translation { text: output_text, diagnostics }
}

/// Emits the fixed block of TypeScript helper type aliases that translated
/// declarations may reference: set-like and map-like containers, a growable
/// list, an optional-value wrapper and a result-like union. It is constant
/// text, independent of the input, and always precedes the translated
/// declarations.
pub fn create_initial_types() -> (r: String)
    ensures
        r@ == prelude_text(),
{
    let mut output_text = String::new();
    output_text.append("type HashSet<T extends number | string> = Record<T, undefined>;");
    output_text.append("type HashMap<T extends number | string, U> = Record<T, U>;");
    output_text.append("type Vec<T> = Array<T>;");
    output_text.append("type Option<T> = T | undefined;");
    output_text.append("type Result<T, U> = T | U;");
    output_text
}

} // verus!
