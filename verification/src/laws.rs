//! Proved properties of the translation, stated over the specification in
//! [`crate::model`]: the member-for-member shape of emitted aliases,
//! tuples, interfaces and unions, and the guarantee that nothing degraded
//! is ever passed over in silence.

use vstd::prelude::*;

use crate::ast::Declaration;
use crate::ast::DiagnosticView;
use crate::ast::EnumVariant;
use crate::ast::Field;
use crate::ast::FieldList;
use crate::ast::TypeExpression;
use crate::model::alias_text;
use crate::model::args_diags;
use crate::model::args_text;
use crate::model::dec_text;
use crate::model::decl_diags;
use crate::model::decls_diags;
use crate::model::enum_text;
use crate::model::indexed_fields_text;
use crate::model::is_primitive_name;
use crate::model::named_fields_diags;
use crate::model::named_fields_text;
use crate::model::payload_diags;
use crate::model::payload_text;
use crate::model::primitive_text;
use crate::model::struct_body_diags;
use crate::model::struct_text;
use crate::model::type_diags;
use crate::model::type_text;
use crate::model::variant_text;
use crate::model::variants_diags;
use crate::model::variants_text;

verus! {

/// A list of text fragments, one member after the other.
pub open spec fn concat_texts(parts: Seq<Seq<char>>) -> Seq<char>
    decreases parts,
{
    if parts.len() == 0 {
        Seq::<char>::empty()
    } else {
        concat_texts(parts.subrange(0, parts.len() - 1)) + parts[parts.len() - 1]
    }
}

/// A list of text fragments with a comma between each neighbouring pair:
/// no leading, trailing or doubled commas.
pub open spec fn comma_separated(parts: Seq<Seq<char>>) -> Seq<char>
    decreases parts,
{
    if parts.len() == 0 {
        Seq::<char>::empty()
    } else {
        comma_separated(parts.subrange(0, parts.len() - 1)) + (if parts.len() == 1 {
            Seq::<char>::empty()
        } else {
            ","@
        }) + parts[parts.len() - 1]
    }
}

/// A type alias to a recognized primitive renders as exactly
/// `export type <Name> = <primitive>;`, the alias identifier passing
/// through with its casing unchanged, and reports no diagnostic.
pub proof fn lemma_alias_to_primitive(name: Seq<char>, t: TypeExpression, p: Seq<char>)
    requires
        is_primitive_name(p),
        t matches TypeExpression::NamedPath { name: path_name, generic_args } && path_name@ == p
            && generic_args@.len() == 0,
    ensures
        alias_text(name, t) == "export type "@ + name + " = "@ + primitive_text(p) + ";"@,
        type_diags(t) =~= Seq::<DiagnosticView>::empty(),
{
}

/// The translated argument list of a sequence of type expressions is the
/// comma-separated list of each element's translation, order preserved.
pub proof fn lemma_args_are_comma_separated(args: Seq<TypeExpression>)
    ensures
        args_text(args) == comma_separated(Seq::new(args.len(), |i: int| type_text(args[i]))),
    decreases args,
{
    let members = Seq::new(args.len(), |i: int| type_text(args[i]));
    if args.len() > 0 {
        let prefix = args.subrange(0, args.len() - 1);
        lemma_args_are_comma_separated(prefix);
        assert(members.subrange(0, members.len() - 1) =~= Seq::new(
            prefix.len(),
            |i: int| type_text(prefix[i]),
        ));
    }
}

/// A tuple type expression with N elements renders as a bracketed list of
/// exactly N comma-separated members in original order: the i-th member
/// is the translation of the i-th element. With N = 0 the list is empty
/// and the text is `[]`; with N = 1 it is the single member, uncommaed.
pub proof fn lemma_tuple_members(t: TypeExpression)
    requires
        t matches TypeExpression::Tuple { .. },
    ensures
        t matches TypeExpression::Tuple { elements } ==> type_text(t) == "["@ + comma_separated(
            Seq::new(elements@.len(), |i: int| type_text(elements@[i])),
        ) + "]"@,
{
    if let TypeExpression::Tuple { elements } = t {
        lemma_args_are_comma_separated(elements@);
    }
}

/// The members emitted for named fields are one `name:type;` fragment per
/// field, concatenated in field order.
pub proof fn lemma_named_members(fields: Seq<Field>)
    ensures
        named_fields_text(fields) == concat_texts(
            Seq::new(fields.len(), |i: int| fields[i].name@ + ":"@ + type_text(fields[i].ty) + ";"@),
        ),
    decreases fields,
{
    let members = Seq::new(
        fields.len(),
        |i: int| fields[i].name@ + ":"@ + type_text(fields[i].ty) + ";"@,
    );
    if fields.len() > 0 {
        let prefix = fields.subrange(0, fields.len() - 1);
        lemma_named_members(prefix);
        assert(members.subrange(0, members.len() - 1) =~= Seq::new(
            prefix.len(),
            |i: int| prefix[i].name@ + ":"@ + type_text(prefix[i].ty) + ";"@,
        ));
    }
}

/// The members emitted for the fields of a tuple-style struct are keyed by
/// exactly the decimal indices 0 .. N-1, in order.
pub proof fn lemma_indexed_members(tys: Seq<TypeExpression>)
    ensures
        indexed_fields_text(tys) == concat_texts(
            Seq::new(tys.len(), |i: int| dec_text(i as nat) + ":"@ + type_text(tys[i]) + ";"@),
        ),
    decreases tys,
{
    let members = Seq::new(tys.len(), |i: int| dec_text(i as nat) + ":"@ + type_text(tys[i]) + ";"@);
    if tys.len() > 0 {
        let prefix = tys.subrange(0, tys.len() - 1);
        lemma_indexed_members(prefix);
        assert(members.subrange(0, members.len() - 1) =~= Seq::new(
            prefix.len(),
            |i: int| dec_text(i as nat) + ":"@ + type_text(prefix[i]) + ";"@,
        ));
    }
}

/// A struct with named fields renders as an interface whose member order
/// equals the field declaration order.
pub proof fn lemma_named_struct_member_order(name: Seq<char>, fields: FieldList)
    requires
        fields matches FieldList::Named(_),
    ensures
        fields matches FieldList::Named(fs) ==> struct_text(name, fields) == "export interface "@
            + name + " {"@ + concat_texts(
            Seq::new(fs@.len(), |i: int| fs@[i].name@ + ":"@ + type_text(fs@[i].ty) + ";"@),
        ) + "};"@,
{
    if let FieldList::Named(fs) = fields {
        lemma_named_members(fs@);
    }
}

/// A struct with unnamed fields renders as an interface whose member keys
/// are exactly the decimal strings "0" .. "N-1", in declaration order.
pub proof fn lemma_tuple_struct_member_keys(name: Seq<char>, fields: FieldList)
    requires
        fields matches FieldList::Unnamed(_),
    ensures
        fields matches FieldList::Unnamed(tys) ==> struct_text(name, fields)
            == "export interface "@ + name + " {"@ + concat_texts(
            Seq::new(tys@.len(), |i: int| dec_text(i as nat) + ":"@ + type_text(tys@[i]) + ";"@),
        ) + "};"@,
{
    if let FieldList::Unnamed(tys) = fields {
        lemma_indexed_members(tys@);
    }
}

/// The union alternatives emitted for an enum's variants, one fragment per
/// variant, each preceded by its separating space.
proof fn lemma_variant_alternatives(vs: Seq<EnumVariant>)
    ensures
        variants_text(vs) == concat_texts(
            Seq::new(vs.len(), |i: int| " "@ + variant_text(vs[i])),
        ),
    decreases vs,
{
    let members = Seq::new(vs.len(), |i: int| " "@ + variant_text(vs[i]));
    if vs.len() > 0 {
        let prefix = vs.subrange(0, vs.len() - 1);
        lemma_variant_alternatives(prefix);
        assert(members.subrange(0, members.len() - 1) =~= Seq::new(
            prefix.len(),
            |i: int| " "@ + variant_text(prefix[i]),
        ));
    }
}

/// An enum with K variants renders as a union of exactly K tagged
/// alternatives, in variant order, regardless of each variant's field
/// shape: the i-th alternative carries the i-th variant's name as its tag
/// literal, and the alternatives are separated by the union operator.
pub proof fn lemma_enum_alternatives(name: Seq<char>, vs: Seq<EnumVariant>)
    ensures
        enum_text(name, vs) == "export type "@ + name + " ="@ + concat_texts(
            Seq::new(
                vs.len(),
                |i: int| " "@ + "| { t: \""@ + vs[i].name@ + "\" , c: "@ + payload_text(
                    vs[i].fields,
                ) + "}"@,
            ),
        ) + ";"@,
{
    lemma_variant_alternatives(vs);
    assert(Seq::new(vs.len(), |i: int| " "@ + variant_text(vs[i])) =~~= Seq::new(
        vs.len(),
        |i: int| " "@ + "| { t: \""@ + vs[i].name@ + "\" , c: "@ + payload_text(vs[i].fields)
            + "}"@,
    ));
}

/// Whether a type expression contains an unsupported node anywhere.
pub open spec fn type_has_unsupported(t: TypeExpression) -> bool
    decreases t,
{
    match t {
        TypeExpression::NamedPath { generic_args, .. } => args_have_unsupported(generic_args@),
        TypeExpression::Tuple { elements } => args_have_unsupported(elements@),
        TypeExpression::Unsupported { .. } => true,
    }
}

/// Whether any element of a type expression list contains an unsupported
/// node.
pub open spec fn args_have_unsupported(args: Seq<TypeExpression>) -> bool
    decreases args,
{
    if args.len() == 0 {
        false
    } else {
        args_have_unsupported(args.subrange(0, args.len() - 1)) || type_has_unsupported(
            args[args.len() - 1],
        )
    }
}

/// Whether any named field's type contains an unsupported node.
pub open spec fn named_fields_have_unsupported(fields: Seq<Field>) -> bool
    decreases fields,
{
    if fields.len() == 0 {
        false
    } else {
        named_fields_have_unsupported(fields.subrange(0, fields.len() - 1))
            || type_has_unsupported(fields[fields.len() - 1].ty)
    }
}

/// Whether translating a struct's fields degrades anything.
pub open spec fn struct_body_degraded(fields: FieldList) -> bool {
    match fields {
        FieldList::Named(fs) => named_fields_have_unsupported(fs@),
        FieldList::Unnamed(tys) => args_have_unsupported(tys@),
        FieldList::Unit => false,
    }
}

/// Whether translating a variant's payload degrades anything: an
/// unsupported node in a translated position, or extra unnamed fields of
/// which only the last is honoured.
pub open spec fn payload_degraded(fields: FieldList) -> bool {
    match fields {
        FieldList::Named(fs) => named_fields_have_unsupported(fs@),
        FieldList::Unnamed(tys) => tys.len() > 1 || (tys.len() == 1 && type_has_unsupported(
            tys[0],
        )),
        FieldList::Unit => false,
    }
}

/// Whether any variant's payload is degraded.
pub open spec fn variants_degraded(vs: Seq<EnumVariant>) -> bool
    decreases vs,
{
    if vs.len() == 0 {
        false
    } else {
        variants_degraded(vs.subrange(0, vs.len() - 1)) || payload_degraded(
            vs[vs.len() - 1].fields,
        )
    }
}

/// Whether translating a declaration skips or degrades anything.
pub open spec fn decl_degraded(d: Declaration) -> bool {
    match d {
        Declaration::TypeAlias { aliased, .. } => type_has_unsupported(aliased),
        Declaration::Struct { fields, .. } => struct_body_degraded(fields),
        Declaration::Enum { variants, .. } => variants_degraded(variants@),
        Declaration::Unsupported { .. } => true,
    }
}

/// A type expression's translation reports a diagnostic exactly when the
/// expression contains an unsupported node: the sentinel text is never
/// silent, and nothing supported is ever flagged.
pub proof fn lemma_type_diags_flag(t: TypeExpression)
    ensures
        type_diags(t).len() > 0 <==> type_has_unsupported(t),
    decreases t,
{
    match t {
        TypeExpression::NamedPath { generic_args, .. } => {
            lemma_args_diags_flag(generic_args@);
        },
        TypeExpression::Tuple { elements } => {
            lemma_args_diags_flag(elements@);
        },
        TypeExpression::Unsupported { .. } => {},
    }
}

/// As [`lemma_type_diags_flag`], for a list of type expressions.
pub proof fn lemma_args_diags_flag(args: Seq<TypeExpression>)
    ensures
        args_diags(args).len() > 0 <==> args_have_unsupported(args),
    decreases args,
{
    if args.len() > 0 {
        lemma_args_diags_flag(args.subrange(0, args.len() - 1));
        lemma_type_diags_flag(args[args.len() - 1]);
    }
}

/// As [`lemma_type_diags_flag`], for a list of named fields.
proof fn lemma_named_fields_diags_flag(fields: Seq<Field>)
    ensures
        named_fields_diags(fields).len() > 0 <==> named_fields_have_unsupported(fields),
    decreases fields,
{
    if fields.len() > 0 {
        lemma_named_fields_diags_flag(fields.subrange(0, fields.len() - 1));
        lemma_type_diags_flag(fields[fields.len() - 1].ty);
    }
}

/// A variant payload's translation reports a diagnostic exactly when the
/// payload is degraded.
proof fn lemma_payload_diags_flag(variant_name: Seq<char>, fields: FieldList)
    ensures
        payload_diags(variant_name, fields).len() > 0 <==> payload_degraded(fields),
{
    match fields {
        FieldList::Named(fs) => {
            lemma_named_fields_diags_flag(fs@);
        },
        FieldList::Unnamed(tys) => {
            if tys@.len() > 0 {
                lemma_type_diags_flag(tys@[tys@.len() - 1]);
            }
        },
        FieldList::Unit => {},
    }
}

/// As [`lemma_payload_diags_flag`], for all variants of an enum.
proof fn lemma_variants_diags_flag(vs: Seq<EnumVariant>)
    ensures
        variants_diags(vs).len() > 0 <==> variants_degraded(vs),
    decreases vs,
{
    if vs.len() > 0 {
        lemma_variants_diags_flag(vs.subrange(0, vs.len() - 1));
        lemma_payload_diags_flag(vs[vs.len() - 1].name@, vs[vs.len() - 1].fields);
    }
}

/// A declaration's translation reports a diagnostic exactly when the
/// declaration is skipped or degraded, whatever its position: an
/// unsupported construct is never silently rendered as if translation had
/// succeeded.
pub proof fn lemma_decl_diags_flag(d: Declaration, position: int)
    ensures
        decl_diags(d, position).len() > 0 <==> decl_degraded(d),
{
    match d {
        Declaration::TypeAlias { aliased, .. } => {
            lemma_type_diags_flag(aliased);
        },
        Declaration::Struct { fields, .. } => {
            match fields {
                FieldList::Named(fs) => lemma_named_fields_diags_flag(fs@),
                FieldList::Unnamed(tys) => lemma_args_diags_flag(tys@),
                FieldList::Unit => {},
            }
        },
        Declaration::Enum { variants, .. } => {
            lemma_variants_diags_flag(variants@);
        },
        Declaration::Unsupported { .. } => {},
    }
}

/// A whole file's translation reports no diagnostic exactly when no
/// declaration in it is skipped or degraded.
pub proof fn lemma_file_diags_flag(ds: Seq<Declaration>)
    ensures
        decls_diags(ds).len() == 0 <==> (forall|i: int|
            0 <= i < ds.len() ==> !decl_degraded(#[trigger] ds[i])),
    decreases ds,
{
    if ds.len() > 0 {
        let n = ds.len() - 1;
        let prefix = ds.subrange(0, n);
        lemma_file_diags_flag(prefix);
        lemma_decl_diags_flag(ds[n], n);
        if decls_diags(ds).len() == 0 {
            assert forall|i: int| 0 <= i < ds.len() implies !decl_degraded(#[trigger] ds[i]) by {
                if i < n {
                    assert(ds[i] == prefix[i]);
                }
            }
        }
        if forall|i: int| 0 <= i < ds.len() ==> !decl_degraded(#[trigger] ds[i]) {
            assert forall|i: int| 0 <= i < prefix.len() implies !decl_degraded(
                #[trigger] prefix[i],
            ) by {
                assert(prefix[i] == ds[i]);
            }
            assert(decls_diags(prefix).len() == 0);
            assert(!decl_degraded(ds[n]));
        }
    }
}

} // verus!
