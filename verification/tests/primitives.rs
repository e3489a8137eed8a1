use typester::{Declaration, FieldList, SourceFile, TypeExpression};

#[test]
fn number_primitives_map_to_number() {
    for ident in [
        "i8", "i16", "i32", "i64", "i128", "u8", "u16", "u32", "u64", "u128", "f32", "f64",
        "isize", "usize",
    ] {
        assert_eq!("number", typester::parse_type_ident(ident), "for {}", ident);
    }
}

#[test]
fn string_primitives_map_to_string() {
    for ident in ["str", "&str", "String", "char"] {
        assert_eq!("string", typester::parse_type_ident(ident), "for {}", ident);
    }
}

#[test]
fn bool_maps_to_boolean() {
    assert_eq!("boolean", typester::parse_type_ident("bool"));
}

#[test]
fn unrecognized_idents_pass_through_unchanged() {
    assert_eq!("Colour", typester::parse_type_ident("Colour"));
    assert_eq!("I32", typester::parse_type_ident("I32"));
    assert_eq!("boolean", typester::parse_type_ident("boolean"));
    assert_eq!("", typester::parse_type_ident(""));
}

#[test]
fn prelude_is_the_fixed_alias_block() {
    assert_eq!(
        "type HashSet<T extends number | string> = Record<T, undefined>;\
         type HashMap<T extends number | string, U> = Record<T, U>;\
         type Vec<T> = Array<T>;\
         type Option<T> = T | undefined;\
         type Result<T, U> = T | U;",
        typester::create_initial_types()
    );
}

#[test]
fn tuple_struct_keys_reach_two_digits() {
    let tys: Vec<TypeExpression> = (0..11)
        .map(|_| TypeExpression::NamedPath { name: "i8".to_string(), generic_args: Vec::new() })
        .collect();
    let file = SourceFile {
        items: vec![Declaration::Struct {
            name: "Wide".to_string(),
            fields: FieldList::Unnamed(tys),
        }],
    };
    let mut diagnostics = Vec::new();
    let text = typester::parse_syn_file(&file, &mut diagnostics);
    let expected_members: String =
        (0..11).map(|i| format!("{}:number;", i)).collect::<Vec<_>>().join("");
    assert_eq!(format!("export interface Wide {{{}}};", expected_members), text);
}

#[test]
fn empty_enum_renders_empty_union() {
    let file = SourceFile {
        items: vec![Declaration::Enum { name: "Never".to_string(), variants: vec![] }],
    };
    let mut diagnostics = Vec::new();
    let text = typester::parse_syn_file(&file, &mut diagnostics);
    assert_eq!("export type Never =;", text);
    assert!(diagnostics.is_empty());
}
