use typester::{
    Declaration, Diagnostic, EnumVariant, Field, FieldList, SourceFile, TypeExpression,
};

fn named(name: &str) -> TypeExpression {
    TypeExpression::NamedPath { name: name.to_string(), generic_args: Vec::new() }
}

fn unsupported(description: &str) -> TypeExpression {
    TypeExpression::Unsupported { description: description.to_string() }
}

#[test]
fn unsupported_type_yields_sentinel_and_diagnostic() {
    let mut diagnostics = Vec::new();
    let text = typester::parse_type(&unsupported("reference type"), &mut diagnostics);
    assert_eq!("unknown", text);
    assert_eq!(
        vec![Diagnostic::UnsupportedType { description: "reference type".to_string() }],
        diagnostics
    );
}

#[test]
fn nested_unsupported_types_reported_in_order() {
    let mut diagnostics = Vec::new();
    let text = typester::parse_type(
        &TypeExpression::Tuple {
            elements: vec![unsupported("slice type"), named("i32"), unsupported("pointer type")],
        },
        &mut diagnostics,
    );
    assert_eq!("[unknown,number,unknown]", text);
    assert_eq!(
        vec![
            Diagnostic::UnsupportedType { description: "slice type".to_string() },
            Diagnostic::UnsupportedType { description: "pointer type".to_string() },
        ],
        diagnostics
    );
}

#[test]
fn unsupported_declaration_is_skipped_and_reported() {
    let file = SourceFile {
        items: vec![
            Declaration::TypeAlias { name: "Kept".to_string(), aliased: named("u16") },
            Declaration::Unsupported { kind: "function item".to_string() },
            Declaration::TypeAlias { name: "Also".to_string(), aliased: named("bool") },
        ],
    };
    let mut diagnostics = Vec::new();
    let text = typester::parse_syn_file(&file, &mut diagnostics);
    assert_eq!("export type Kept = number;export type Also = boolean;", text);
    assert_eq!(
        vec![Diagnostic::UnsupportedDeclaration { kind: "function item".to_string(), position: 1 }],
        diagnostics
    );
}

#[test]
fn extra_unnamed_variant_fields_keep_last_and_report() {
    let file = SourceFile {
        items: vec![Declaration::Enum {
            name: "Mixed".to_string(),
            variants: vec![EnumVariant {
                name: "Pair".to_string(),
                fields: FieldList::Unnamed(vec![named("i32"), named("bool")]),
            }],
        }],
    };
    let mut diagnostics = Vec::new();
    let text = typester::parse_syn_file(&file, &mut diagnostics);
    assert_eq!(r#"export type Mixed = | { t: "Pair" , c: boolean};"#, text);
    assert_eq!(
        vec![Diagnostic::ExtraUnnamedVariantFields { variant: "Pair".to_string() }],
        diagnostics
    );
}

#[test]
fn empty_unnamed_variant_has_no_payload() {
    let file = SourceFile {
        items: vec![Declaration::Enum {
            name: "Odd".to_string(),
            variants: vec![EnumVariant {
                name: "Nothing".to_string(),
                fields: FieldList::Unnamed(vec![]),
            }],
        }],
    };
    let mut diagnostics = Vec::new();
    let text = typester::parse_syn_file(&file, &mut diagnostics);
    assert_eq!(r#"export type Odd = | { t: "Nothing" , c: undefined};"#, text);
    assert!(diagnostics.is_empty());
}

#[test]
fn unsupported_field_type_degrades_with_report() {
    let file = SourceFile {
        items: vec![Declaration::Struct {
            name: "Holder".to_string(),
            fields: FieldList::Named(vec![Field {
                name: "inner".to_string(),
                ty: unsupported("trait object type"),
            }]),
        }],
    };
    let mut diagnostics = Vec::new();
    let text = typester::parse_syn_file(&file, &mut diagnostics);
    assert_eq!("export interface Holder {inner:unknown;};", text);
    assert_eq!(
        vec![Diagnostic::UnsupportedType { description: "trait object type".to_string() }],
        diagnostics
    );
}

#[test]
fn run_succeeds_partially_with_diagnostics() {
    let file = SourceFile {
        items: vec![
            Declaration::Unsupported { kind: "impl block".to_string() },
            Declaration::TypeAlias { name: "Kept".to_string(), aliased: named("usize") },
        ],
    };
    let translation = typester::run(&file);
    let mut expected = typester::create_initial_types();
    expected.push_str("export type Kept = number;");
    assert_eq!(expected, translation.text);
    assert_eq!(
        vec![Diagnostic::UnsupportedDeclaration { kind: "impl block".to_string(), position: 0 }],
        translation.diagnostics
    );
}

#[test]
fn empty_file_translates_to_prelude_only() {
    let file = SourceFile { items: vec![] };
    let translation = typester::run(&file);
    assert_eq!(typester::create_initial_types(), translation.text);
    assert!(translation.diagnostics.is_empty());
}
