use typester::{Declaration, EnumVariant, Field, FieldList, SourceFile, TypeExpression};

fn named(name: &str) -> TypeExpression {
    TypeExpression::NamedPath { name: name.to_string(), generic_args: Vec::new() }
}

fn field(name: &str, ty: TypeExpression) -> Field {
    Field { name: name.to_string(), ty }
}

fn translate(file: &SourceFile) -> String {
    let mut diagnostics = Vec::new();
    let text = typester::parse_syn_file(file, &mut diagnostics);
    assert!(diagnostics.is_empty(), "unexpected diagnostics: {:?}", diagnostics);
    text
}

#[test]
fn handles_type_alias() {
    let file = SourceFile {
        items: vec![Declaration::TypeAlias {
            name: "NumberAlias".to_string(),
            aliased: named("i32"),
        }],
    };
    let mut diagnostics = Vec::new();
    let ts_types = typester::parse_syn_file(&file, &mut diagnostics);
    assert_eq!(r#"export type NumberAlias = number;"#, &ts_types);
}

#[test]
fn handles_struct() {
    let file = SourceFile {
        items: vec![Declaration::Struct {
            name: "Person".to_string(),
            fields: FieldList::Named(vec![
                field("name", named("String")),
                field("age", named("u32")),
                field("enjoys_coffee", named("bool")),
            ]),
        }],
    };
    let mut diagnostics = Vec::new();
    let typescript_types = typester::parse_syn_file(&file, &mut diagnostics);
    assert_eq!(
        r#"export interface Person {name:string;age:number;enjoys_coffee:boolean;};"#,
        &typescript_types
    );
}

#[test]
fn handles_enum() {
    let file = SourceFile {
        items: vec![Declaration::Enum {
            name: "Colour".to_string(),
            variants: vec![
                EnumVariant {
                    name: "Red".to_string(),
                    fields: FieldList::Unnamed(vec![named("i32")]),
                },
                EnumVariant {
                    name: "Green".to_string(),
                    fields: FieldList::Unnamed(vec![named("i32")]),
                },
                EnumVariant {
                    name: "Blue".to_string(),
                    fields: FieldList::Unnamed(vec![named("i32")]),
                },
            ],
        }],
    };
    let mut diagnostics = Vec::new();
    let typescript_types = typester::parse_syn_file(&file, &mut diagnostics);
    assert_eq!(
        r#"export type Colour = | { t: "Red" , c: number} | { t: "Green" , c: number} | { t: "Blue" , c: number};"#,
        &typescript_types
    );
}

#[test]
fn alias_of_primitive_is_exact() {
    let file = SourceFile {
        items: vec![Declaration::TypeAlias { name: "Foo".to_string(), aliased: named("i32") }],
    };
    assert_eq!("export type Foo = number;", translate(&file));
}

#[test]
fn alias_casing_preserved() {
    let file = SourceFile {
        items: vec![Declaration::TypeAlias {
            name: "mIxEdCase".to_string(),
            aliased: named("u8"),
        }],
    };
    assert_eq!("export type mIxEdCase = number;", translate(&file));
}

#[test]
fn point_struct_scenario() {
    let file = SourceFile {
        items: vec![Declaration::Struct {
            name: "Point".to_string(),
            fields: FieldList::Named(vec![field("x", named("i32")), field("y", named("i32"))]),
        }],
    };
    assert_eq!("export interface Point {x:number;y:number;};", translate(&file));
}

#[test]
fn shape_enum_scenario() {
    let file = SourceFile {
        items: vec![Declaration::Enum {
            name: "Shape".to_string(),
            variants: vec![
                EnumVariant {
                    name: "Circle".to_string(),
                    fields: FieldList::Unnamed(vec![named("f64")]),
                },
                EnumVariant { name: "Square".to_string(), fields: FieldList::Unit },
            ],
        }],
    };
    assert_eq!(
        r#"export type Shape = | { t: "Circle" , c: number} | { t: "Square" , c: undefined};"#,
        translate(&file)
    );
}

#[test]
fn tuple_field_scenario() {
    let mut diagnostics = Vec::new();
    let text = typester::parse_type(
        &TypeExpression::Tuple { elements: vec![named("i32"), named("str")] },
        &mut diagnostics,
    );
    assert_eq!("[number,string]", text);
    assert!(diagnostics.is_empty());
}

#[test]
fn two_unnamed_fields_scenario() {
    let file = SourceFile {
        items: vec![Declaration::Struct {
            name: "Pair".to_string(),
            fields: FieldList::Unnamed(vec![named("i32"), named("bool")]),
        }],
    };
    assert_eq!("export interface Pair {0:number;1:boolean;};", translate(&file));
}

#[test]
fn empty_tuple_renders_empty_brackets() {
    let mut diagnostics = Vec::new();
    let text =
        typester::parse_type(&TypeExpression::Tuple { elements: vec![] }, &mut diagnostics);
    assert_eq!("[]", text);
    assert!(diagnostics.is_empty());
}

#[test]
fn single_element_tuple_has_one_member() {
    let mut diagnostics = Vec::new();
    let text = typester::parse_type(
        &TypeExpression::Tuple { elements: vec![named("u64")] },
        &mut diagnostics,
    );
    assert_eq!("[number]", text);
}

#[test]
fn nested_generic_arguments() {
    let mut diagnostics = Vec::new();
    let text = typester::parse_type(
        &TypeExpression::NamedPath {
            name: "HashMap".to_string(),
            generic_args: vec![named("String"), named("Colour")],
        },
        &mut diagnostics,
    );
    assert_eq!("HashMap<string,Colour>", text);
    assert!(diagnostics.is_empty());
}

#[test]
fn generic_inside_generic() {
    let mut diagnostics = Vec::new();
    let text = typester::parse_type(
        &TypeExpression::NamedPath {
            name: "Option".to_string(),
            generic_args: vec![TypeExpression::NamedPath {
                name: "Vec".to_string(),
                generic_args: vec![named("i32")],
            }],
        },
        &mut diagnostics,
    );
    assert_eq!("Option<Vec<number>>", text);
}

#[test]
fn tuple_inside_struct_field() {
    let file = SourceFile {
        items: vec![Declaration::Struct {
            name: "Person".to_string(),
            fields: FieldList::Named(vec![field(
                "enjoys_coffee",
                TypeExpression::Tuple { elements: vec![named("i32"), named("str")] },
            )]),
        }],
    };
    assert_eq!("export interface Person {enjoys_coffee:[number,string];};", translate(&file));
}

#[test]
fn unit_struct_has_empty_body() {
    let file = SourceFile {
        items: vec![Declaration::Struct { name: "Marker".to_string(), fields: FieldList::Unit }],
    };
    assert_eq!("export interface Marker {};", translate(&file));
}

#[test]
fn enum_with_named_fields_variant() {
    let file = SourceFile {
        items: vec![Declaration::Enum {
            name: "Event".to_string(),
            variants: vec![EnumVariant {
                name: "Click".to_string(),
                fields: FieldList::Named(vec![
                    field("x", named("i64")),
                    field("y", named("i64")),
                ]),
            }],
        }],
    };
    assert_eq!(
        r#"export type Event = | { t: "Click" , c: {x:number;y:number;}};"#,
        translate(&file)
    );
}

#[test]
fn declarations_keep_input_order() {
    let file = SourceFile {
        items: vec![
            Declaration::TypeAlias { name: "A".to_string(), aliased: named("bool") },
            Declaration::Struct { name: "B".to_string(), fields: FieldList::Unit },
            Declaration::TypeAlias { name: "C".to_string(), aliased: named("char") },
        ],
    };
    assert_eq!(
        "export type A = boolean;export interface B {};export type C = string;",
        translate(&file)
    );
}

#[test]
fn run_prepends_prelude() {
    let file = SourceFile {
        items: vec![Declaration::TypeAlias { name: "Foo".to_string(), aliased: named("i32") }],
    };
    let translation = typester::run(&file);
    let mut expected = typester::create_initial_types();
    expected.push_str("export type Foo = number;");
    assert_eq!(expected, translation.text);
    assert!(translation.diagnostics.is_empty());
}
