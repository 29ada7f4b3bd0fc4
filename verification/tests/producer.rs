// These tests play the producer: they register each data shape by hand,
// resolving every field and variant name through the naming engine, and
// compare the resulting tree with the expected model.

use dox::Dox;
use dox::Renderer;
use dox::doc_text::join_doc_lines;
use dox::model::Container;
use dox::model::Enum;
use dox::model::Field;
use dox::model::Primitive;
use dox::model::Typ;
use dox::model::Variant;
use dox::naming::parse_rule;
use dox::naming::rename_field;
use dox::naming::resolve_name;
use dox::render::text::Text;

/// Fills the name and doc slots of a freshly produced field, the way a
/// model builder does after visiting a struct field.
fn name_field(mut field: Field, name: String, doc: &str) -> Field {
    match &mut field {
        Field::Primitive(p) => {
            p.name = name;
            p.doc = doc.to_string();
        }
        Field::Container(c) => {
            c.name = name;
            c.doc = doc.to_string();
        }
        Field::Enum(e) => {
            e.name = name;
            e.doc = doc.to_string();
        }
    }
    field
}

fn inner_struct_dox() -> Field {
    Field::Container(Container {
        name: "InnerStruct".to_string(),
        typename: "InnerStruct".to_string(),
        fields: vec![name_field(
            <i32 as Dox>::dox(),
            resolve_name("inner", Some("inner"), None),
            "This is an inner field",
        )],
        doc: "".to_string(),
    })
}

fn test_struct_dox() -> Field {
    Field::Container(Container {
        name: "TestStruct".to_string(),
        typename: "TestStruct".to_string(),
        fields: vec![
            name_field(
                <String as Dox>::dox(),
                resolve_name("test", Some("test"), None),
                "This is a test field",
            ),
            name_field(
                inner_struct_dox(),
                resolve_name("nested", None, None),
                "This is a nested struct",
            ),
            name_field(
                <Vec<i32> as Dox>::dox(),
                resolve_name("vector", Some("vector"), None),
                "This is a vector of integers",
            ),
        ],
        doc: "This is a test struct".to_string(),
    })
}

#[test]
fn test_dox() {
    let expected = Field::Container(Container {
        name: "TestStruct".to_string(),
        typename: "TestStruct".to_string(),
        fields: vec![
            Field::Primitive(Primitive {
                name: "test".to_string(),
                typ: Typ::String,
                doc: "This is a test field".to_string(),
            }),
            Field::Container(Container {
                name: "nested".to_string(),
                typename: "InnerStruct".to_string(),
                fields: vec![Field::Primitive(Primitive {
                    name: "inner".to_string(),
                    typ: Typ::I32,
                    doc: "This is an inner field".to_string(),
                })],
                doc: "This is a nested struct".to_string(),
            }),
            Field::Primitive(Primitive {
                name: "vector".to_string(),
                typ: Typ::Vec(Box::new(Typ::I32)),
                doc: "This is a vector of integers".to_string(),
            }),
        ],
        doc: "This is a test struct".to_string(),
    });

    assert_eq!(test_struct_dox(), expected);
}

#[test]
fn test_snake_case_rename() {
    let rule = parse_rule("snake_case");
    let built = Field::Container(Container {
        name: "SnakeCaseStruct".to_string(),
        typename: "SnakeCaseStruct".to_string(),
        fields: vec![name_field(
            <String as Dox>::dox(),
            resolve_name("camel_case_field", None, rule),
            "This is a camel case field",
        )],
        doc: "This is a struct with snake_case rename".to_string(),
    });

    let expected = Field::Container(Container {
        name: "SnakeCaseStruct".to_string(),
        typename: "SnakeCaseStruct".to_string(),
        fields: vec![Field::Primitive(Primitive {
            name: "camel_case_field".to_string(),
            typ: Typ::String,
            doc: "This is a camel case field".to_string(),
        })],
        doc: "This is a struct with snake_case rename".to_string(),
    });

    assert_eq!(built, expected);
}

#[test]
fn test_camel_case_rename() {
    let rule = parse_rule("camelCase");
    let built = Field::Container(Container {
        name: "CamelCaseStruct".to_string(),
        typename: "CamelCaseStruct".to_string(),
        fields: vec![name_field(
            <String as Dox>::dox(),
            resolve_name("snake_case_field", None, rule),
            "This is a snake case field",
        )],
        doc: "This is a struct with camelCase rename".to_string(),
    });

    let expected = Field::Container(Container {
        name: "CamelCaseStruct".to_string(),
        typename: "CamelCaseStruct".to_string(),
        fields: vec![Field::Primitive(Primitive {
            name: "snakeCaseField".to_string(),
            typ: Typ::String,
            doc: "This is a snake case field".to_string(),
        })],
        doc: "This is a struct with camelCase rename".to_string(),
    });

    assert_eq!(built, expected);
}

/// Builds one plain enum variant as the producer does, renaming through
/// the directive when the enum carries one.
fn make_variant(identifier: &str, rename_all: Option<&str>, doc: &str) -> Variant {
    let name = match rename_all {
        Some(directive) => rename_field(identifier, directive),
        None => identifier.to_string(),
    };
    Variant { name, doc: doc.to_string() }
}

#[test]
fn test_enum() {
    let built = Field::Enum(Enum {
        name: "TestEnum".to_string(),
        doc: "This is a test enum".to_string(),
        variants: vec![
            make_variant("Variant1", None, "First variant"),
            make_variant("Variant2", None, "Second variant"),
            make_variant("Variant3", None, "Third variant"),
        ],
    });

    let expected = Field::Enum(Enum {
        name: "TestEnum".to_string(),
        doc: "This is a test enum".to_string(),
        variants: vec![
            Variant { name: "Variant1".to_string(), doc: "First variant".to_string() },
            Variant { name: "Variant2".to_string(), doc: "Second variant".to_string() },
            Variant { name: "Variant3".to_string(), doc: "Third variant".to_string() },
        ],
    });

    assert_eq!(built, expected);
}

#[test]
fn test_snake_case_enum() {
    let built = Field::Enum(Enum {
        name: "SnakeCaseEnum".to_string(),
        doc: "This is a snake_case enum".to_string(),
        variants: vec![
            make_variant("VariantOne", Some("snake_case"), "First variant"),
            make_variant("VariantTwo", Some("snake_case"), "Second variant"),
            make_variant("VariantThree", Some("snake_case"), "Third variant"),
        ],
    });

    let expected = Field::Enum(Enum {
        name: "SnakeCaseEnum".to_string(),
        doc: "This is a snake_case enum".to_string(),
        variants: vec![
            Variant { name: "variant_one".to_string(), doc: "First variant".to_string() },
            Variant { name: "variant_two".to_string(), doc: "Second variant".to_string() },
            Variant { name: "variant_three".to_string(), doc: "Third variant".to_string() },
        ],
    });

    assert_eq!(built, expected);
}

#[test]
fn test_screaming_snake_case_enum() {
    let built = Field::Enum(Enum {
        name: "ScreamingSnakeCaseEnum".to_string(),
        doc: "This is a SCREAMING_SNAKE_CASE enum".to_string(),
        variants: vec![
            make_variant("VariantOne", Some("SCREAMING_SNAKE_CASE"), "First variant"),
            make_variant("VariantTwo", Some("SCREAMING_SNAKE_CASE"), "Second variant"),
            make_variant("VariantThree", Some("SCREAMING_SNAKE_CASE"), "Third variant"),
        ],
    });

    let expected = Field::Enum(Enum {
        name: "ScreamingSnakeCaseEnum".to_string(),
        doc: "This is a SCREAMING_SNAKE_CASE enum".to_string(),
        variants: vec![
            Variant { name: "VARIANT_ONE".to_string(), doc: "First variant".to_string() },
            Variant { name: "VARIANT_TWO".to_string(), doc: "Second variant".to_string() },
            Variant { name: "VARIANT_THREE".to_string(), doc: "Third variant".to_string() },
        ],
    });

    assert_eq!(built, expected);
}

#[test]
fn test_extract_doc_comments() {
    // doc comment lines arrive with their leading space; they are trimmed
    // and joined with single newlines
    let lines = vec![" This is a doc comment".to_string(), " It spans multiple lines".to_string()];
    assert_eq!(join_doc_lines(&lines), "This is a doc comment\nIt spans multiple lines");

    let no_lines: Vec<String> = vec![];
    assert_eq!(join_doc_lines(&no_lines), "");
}

#[test]
fn test_trimmed_doc_lines() {
    let lines = vec!["  padded  ".to_string(), "\tindented\t".to_string(), "".to_string()];
    assert_eq!(join_doc_lines(&lines), "padded\nindented\n");
}

#[test]
fn test_generic_render_entry() {
    // a bare primitive tree renders to nothing, through the generic entry
    let renderer = Text;
    assert_eq!(dox::render::<Vec<i32>, Text>(&renderer), "");
    assert_eq!(dox::render::<String, Text>(&renderer), "");

    // the produced tree for a scalar is an unnamed primitive leaf
    let leaf = <u64 as Dox>::dox();
    let expected = Field::Primitive(Primitive {
        name: "".to_string(),
        typ: Typ::U64,
        doc: "".to_string(),
    });
    assert_eq!(leaf, expected);
    assert_eq!(renderer.render(leaf), "");
}
