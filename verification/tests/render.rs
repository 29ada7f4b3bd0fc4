use dox::Renderer;
use dox::model::Container;
use dox::model::Enum;
use dox::model::Field;
use dox::model::Primitive;
use dox::model::Typ;
use dox::model::Variant;
use dox::render::text::Text;
use dox::render::text::render_container;
use dox::render::text::render_enum;
use dox::render::text::render_field;

fn sample_tree() -> Field {
    Field::Container(Container {
        name: "TestStruct".to_string(),
        typename: "TestStruct".to_string(),
        doc: "This is a test struct".to_string(),
        fields: vec![
            Field::Primitive(Primitive {
                name: "field1".to_string(),
                typ: Typ::String,
                doc: "A string field".to_string(),
            }),
            Field::Primitive(Primitive {
                name: "field2".to_string(),
                typ: Typ::I32,
                doc: "An integer field".to_string(),
            }),
            Field::Container(Container {
                name: "nested".to_string(),
                typename: "NestedStruct".to_string(),
                doc: "A nested struct".to_string(),
                fields: vec![Field::Primitive(Primitive {
                    name: "nested_field".to_string(),
                    typ: Typ::String,
                    doc: "A field in the nested struct".to_string(),
                })],
            }),
            Field::Enum(Enum {
                name: "enum_field".to_string(),
                doc: "An enum field".to_string(),
                variants: vec![
                    Variant { name: "Variant1".to_string(), doc: "First variant".to_string() },
                    Variant { name: "Variant2".to_string(), doc: "Second variant".to_string() },
                ],
            }),
        ],
    })
}

#[test]
fn test_text_renderer() {
    let doc = sample_tree();
    let renderer = Text;
    let result = renderer.render(doc);

    let expected = "TestStruct\n\
                    ==========\n\
                    This is a test struct\n\
                    \n\
                    - field1 (String): A string field\n\
                    - field2 (i32): An integer field\n\
                    - nested (NestedStruct): A nested struct\n\
                    - enum_field (enum): An enum field\n\
                    \n\
                    NestedStruct\n\
                    ============\n\
                    A nested struct\n\
                    \n\
                    - nested_field (String): A field in the nested struct\n\
                    \n\
                    enum_field (enum)\n\
                    =================\n\
                    An enum field\n\
                    \n\
                    Variants:\n\
                    - Variant1: First variant\n\
                    - Variant2: Second variant\n";

    assert_eq!(result, expected);
}

#[test]
fn test_container_heading_and_line() {
    // a single-primitive container: heading, a ten-equals underline, the
    // doc, a blank line, one child line
    let container = Container {
        name: "TestStruct".to_string(),
        typename: "TestStruct".to_string(),
        doc: "This is a test struct".to_string(),
        fields: vec![Field::Primitive(Primitive {
            name: "field1".to_string(),
            typ: Typ::String,
            doc: "A string field".to_string(),
        })],
    };
    let result = render_container(&container);
    let expected =
        "TestStruct\n==========\nThis is a test struct\n\n- field1 (String): A string field\n";
    assert_eq!(result, expected);
}

#[test]
fn test_primitive_root_renders_empty() {
    let doc = Field::Primitive(Primitive {
        name: "alone".to_string(),
        typ: Typ::Bool,
        doc: "A bare scalar".to_string(),
    });
    assert_eq!(render_field(&doc), "");
}

#[test]
fn test_enum_variant_lines() {
    let enum_type = Enum {
        name: "enum_field".to_string(),
        doc: "An enum field".to_string(),
        variants: vec![
            Variant { name: "Variant1".to_string(), doc: "First".to_string() },
            Variant { name: "Variant2".to_string(), doc: "Second".to_string() },
        ],
    };
    let result = render_enum(&enum_type);
    let tail = "Variants:\n- Variant1: First\n- Variant2: Second\n";
    assert!(result.ends_with(tail));
    let expected = "enum_field (enum)\n=================\nAn enum field\n\nVariants:\n\
                    - Variant1: First\n- Variant2: Second\n";
    assert_eq!(result, expected);
}

#[test]
fn test_nested_rendering_roundtrip() {
    // the parent's nested section holds the child's own top-level
    // rendering, verbatim
    let doc = sample_tree();
    let nested_alone = Container {
        name: "nested".to_string(),
        typename: "NestedStruct".to_string(),
        doc: "A nested struct".to_string(),
        fields: vec![Field::Primitive(Primitive {
            name: "nested_field".to_string(),
            typ: Typ::String,
            doc: "A field in the nested struct".to_string(),
        })],
    };
    let child_rendering = render_container(&nested_alone);
    let parent_rendering = render_field(&doc);
    assert!(parent_rendering.contains(&child_rendering));
}

#[test]
fn test_render_deterministic() {
    let first = render_field(&sample_tree());
    let second = render_field(&sample_tree());
    assert_eq!(first, second);
    let tree = sample_tree();
    let cloned = tree.clone();
    assert_eq!(render_field(&tree), render_field(&cloned));
}

#[test]
fn test_typ_text() {
    assert_eq!(Typ::I8.to_text(), "i8");
    assert_eq!(Typ::I16.to_text(), "i16");
    assert_eq!(Typ::I32.to_text(), "i32");
    assert_eq!(Typ::I64.to_text(), "i64");
    assert_eq!(Typ::I128.to_text(), "i128");
    assert_eq!(Typ::Isize.to_text(), "isize");
    assert_eq!(Typ::U8.to_text(), "u8");
    assert_eq!(Typ::U16.to_text(), "u16");
    assert_eq!(Typ::U32.to_text(), "u32");
    assert_eq!(Typ::U64.to_text(), "u64");
    assert_eq!(Typ::U128.to_text(), "u128");
    assert_eq!(Typ::Usize.to_text(), "usize");
    assert_eq!(Typ::F32.to_text(), "f32");
    assert_eq!(Typ::F64.to_text(), "f64");
    assert_eq!(Typ::Bool.to_text(), "bool");
    assert_eq!(Typ::Char.to_text(), "char");
    assert_eq!(Typ::String.to_text(), "String");
    assert_eq!(Typ::Vec(Box::new(Typ::String)).to_text(), "Vec<String>");
    assert_eq!(Typ::Vec(Box::new(Typ::Vec(Box::new(Typ::I32)))).to_text(), "Vec<Vec<i32>>");
}
