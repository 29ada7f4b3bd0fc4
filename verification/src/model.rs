//! The documentation model: a tagged-union tree of primitives, containers
//! and plain-variant enums, together with its mathematical view.
//!
//! A tree is built once by a producer, consumed by a renderer, and never
//! mutated. The ghost mirror types ([`FieldView`] and friends) give every
//! node a value made of sequences, which the rendering contracts speak of.

use vstd::prelude::*;

use crate::chars::push_char;

verus! {

/// The closed set of primitive type tags, plus a parametric sequence tag.
#[derive(Debug, PartialEq)]
pub enum Typ {
    I8,
    I16,
    I32,
    I64,
    I128,
    Isize,
    U8,
    U16,
    U32,
    U64,
    U128,
    Usize,
    F32,
    F64,
    Bool,
    Char,
    String,
    Vec(Box<Typ>),
}

/// The canonical textual rendering of a type tag. No two distinct tags
/// render identically.
pub open spec fn typ_text_spec(t: Typ) -> Seq<char>
    decreases t,
{
    match t {
        Typ::I8 => "i8"@,
        Typ::I16 => "i16"@,
        Typ::I32 => "i32"@,
        Typ::I64 => "i64"@,
        Typ::I128 => "i128"@,
        Typ::Isize => "isize"@,
        Typ::U8 => "u8"@,
        Typ::U16 => "u16"@,
        Typ::U32 => "u32"@,
        Typ::U64 => "u64"@,
        Typ::U128 => "u128"@,
        Typ::Usize => "usize"@,
        Typ::F32 => "f32"@,
        Typ::F64 => "f64"@,
        Typ::Bool => "bool"@,
        Typ::Char => "char"@,
        Typ::String => "String"@,
        Typ::Vec(inner) => "Vec<"@ + typ_text_spec(*inner) + ">"@,
    }
}

/// No two distinct tags render identically: the canonical text determines
/// the tag.
pub proof fn lemma_typ_text_injective(t1: Typ, t2: Typ)
    requires
        typ_text_spec(t1) == typ_text_spec(t2),
    ensures
        t1 == t2,
    decreases t1,
{
    reveal_strlit("i8");
    reveal_strlit("i16");
    reveal_strlit("i32");
    reveal_strlit("i64");
    reveal_strlit("i128");
    reveal_strlit("isize");
    reveal_strlit("u8");
    reveal_strlit("u16");
    reveal_strlit("u32");
    reveal_strlit("u64");
    reveal_strlit("u128");
    reveal_strlit("usize");
    reveal_strlit("f32");
    reveal_strlit("f64");
    reveal_strlit("bool");
    reveal_strlit("char");
    reveal_strlit("String");
    reveal_strlit("Vec<");
    reveal_strlit(">");
    let s1 = typ_text_spec(t1);
    let s2 = typ_text_spec(t2);
    assert(s1.len() == s2.len());
    assert(s1[0] == s2[0]);
    if s1.len() >= 2 {
        assert(s1[1] == s2[1]);
    }
    if let Typ::Vec(a) = t1 {
        if let Typ::Vec(b) = t2 {
            let sa = typ_text_spec(*a);
            let sb = typ_text_spec(*b);
            assert(s1 == "Vec<"@ + sa + ">"@);
            assert(s2 == "Vec<"@ + sb + ">"@);
            assert(s1.len() == 5 + sa.len());
            assert(s2.len() == 5 + sb.len());
            assert(sa =~= s1.subrange(4, 4 + sa.len() as int));
            assert(sb =~= s2.subrange(4, 4 + sb.len() as int));
            lemma_typ_text_injective(*a, *b);
        }
    }
}

impl Typ {
    /// Renders the tag to its canonical text.
    pub fn to_text(&self) -> (r: String)
        ensures
            r@ == typ_text_spec(*self),
        decreases *self,
    {
        match self {
            Typ::I8 => "i8".to_owned(),
            Typ::I16 => "i16".to_owned(),
            Typ::I32 => "i32".to_owned(),
            Typ::I64 => "i64".to_owned(),
            Typ::I128 => "i128".to_owned(),
            Typ::Isize => "isize".to_owned(),
            Typ::U8 => "u8".to_owned(),
            Typ::U16 => "u16".to_owned(),
            Typ::U32 => "u32".to_owned(),
            Typ::U64 => "u64".to_owned(),
            Typ::U128 => "u128".to_owned(),
            Typ::Usize => "usize".to_owned(),
            Typ::F32 => "f32".to_owned(),
            Typ::F64 => "f64".to_owned(),
            Typ::Bool => "bool".to_owned(),
            Typ::Char => "char".to_owned(),
            Typ::String => "String".to_owned(),
            Typ::Vec(inner) => {
                let mut r = "Vec<".to_owned();
                let inner_text = inner.to_text();
                r.append(inner_text.as_str());
                push_char(&mut r, '>');
                proof {
                    reveal_strlit(">");
                    assert(r@ =~= "Vec<"@ + typ_text_spec(*(*inner)) + ">"@);
                }
                r
            },
        }
    }
}

/// A scalar-typed field: a leaf of the tree.
#[derive(Debug, PartialEq)]
pub struct Primitive {
    pub name: String,
    pub typ: Typ,
    pub doc: String,
}

/// A nested record: a field slot holding a struct-shaped subtree.
///
/// `name` is the field slot name as the parent sees it (after renaming);
/// `typename` is the declared type's identifier, used as the section
/// heading. Field order is declaration order and is meaningful.
#[derive(Debug, PartialEq)]
pub struct Container {
    pub name: String,
    pub typename: String,
    pub fields: Vec<Field>,
    pub doc: String,
}

/// An enumeration of plain variants (no associated data).
#[derive(Debug, PartialEq)]
pub struct Enum {
    pub name: String,
    pub doc: String,
    pub variants: Vec<Variant>,
}

/// One plain variant of an [`Enum`].
#[derive(Debug, PartialEq)]
pub struct Variant {
    pub name: String,
    pub doc: String,
}

/// A child slot of the tree: one of the three node shapes.
#[derive(Debug, PartialEq)]
pub enum Field {
    Primitive(Primitive),
    Container(Container),
    Enum(Enum),
}

/// Ghost mirror of [`Primitive`].
#[verifier::ext_equal]
pub struct PrimitiveView {
    pub name: Seq<char>,
    pub typ: Typ,
    pub doc: Seq<char>,
}

/// Ghost mirror of [`Variant`].
#[verifier::ext_equal]
pub struct VariantView {
    pub name: Seq<char>,
    pub doc: Seq<char>,
}

/// Ghost mirror of [`Enum`].
#[verifier::ext_equal]
pub struct EnumView {
    pub name: Seq<char>,
    pub doc: Seq<char>,
    pub variants: Seq<VariantView>,
}

/// Ghost mirror of [`Container`].
#[verifier::ext_equal]
pub struct ContainerView {
    pub name: Seq<char>,
    pub typename: Seq<char>,
    pub fields: Seq<FieldView>,
    pub doc: Seq<char>,
}

/// Ghost mirror of [`Field`].
#[verifier::ext_equal]
pub enum FieldView {
    Primitive(PrimitiveView),
    Container(ContainerView),
    Enum(EnumView),
}

/// The view of a whole field subtree.
pub open spec fn field_view(f: Field) -> FieldView
    decreases f,
{
    match f {
        Field::Primitive(p) => FieldView::Primitive(
            PrimitiveView { name: p.name@, typ: p.typ, doc: p.doc@ },
        ),
        Field::Container(c) => FieldView::Container(container_view(c)),
        Field::Enum(e) => FieldView::Enum(enum_view(e)),
    }
}

/// The view of a container node, fields viewed recursively.
pub open spec fn container_view(c: Container) -> ContainerView
    decreases c,
{
    ContainerView {
        name: c.name@,
        typename: c.typename@,
        fields: fields_view(c.fields@),
        doc: c.doc@,
    }
}

/// The views of a sequence of child fields, in order.
pub open spec fn fields_view(fs: Seq<Field>) -> Seq<FieldView>
    decreases fs,
{
    if fs.len() == 0 {
        Seq::empty()
    } else {
        seq![field_view(fs[0])] + fields_view(fs.drop_first())
    }
}

/// The view of an enum node.
pub open spec fn enum_view(e: Enum) -> EnumView {
    EnumView {
        name: e.name@,
        doc: e.doc@,
        variants: e.variants@.map_values(|v: Variant| VariantView { name: v.name@, doc: v.doc@ }),
    }
}

impl View for Primitive {
    type V = PrimitiveView;

    open spec fn view(&self) -> PrimitiveView {
        PrimitiveView { name: self.name@, typ: self.typ, doc: self.doc@ }
    }
}

impl View for Variant {
    type V = VariantView;

    open spec fn view(&self) -> VariantView {
        VariantView { name: self.name@, doc: self.doc@ }
    }
}

impl View for Enum {
    type V = EnumView;

    open spec fn view(&self) -> EnumView {
        enum_view(*self)
    }
}

impl View for Container {
    type V = ContainerView;

    open spec fn view(&self) -> ContainerView {
        container_view(*self)
    }
}

impl View for Field {
    type V = FieldView;

    open spec fn view(&self) -> FieldView {
        field_view(*self)
    }
}

/// `fields_view` maps index-wise: it keeps the length and views each
/// element in place.
pub proof fn lemma_fields_view_index(fs: Seq<Field>)
    ensures
        fields_view(fs).len() == fs.len(),
        forall|i: int| 0 <= i < fs.len() ==> #[trigger] fields_view(fs)[i] == field_view(fs[i]),
    decreases fs,
{
    if fs.len() > 0 {
        lemma_fields_view_index(fs.drop_first());
    }
}

impl Clone for Typ {
    /// A clone of a tag is the very same tag.
    fn clone(&self) -> (r: Typ)
        ensures
            r == *self,
        decreases *self,
    {
        match self {
            Typ::I8 => Typ::I8,
            Typ::I16 => Typ::I16,
            Typ::I32 => Typ::I32,
            Typ::I64 => Typ::I64,
            Typ::I128 => Typ::I128,
            Typ::Isize => Typ::Isize,
            Typ::U8 => Typ::U8,
            Typ::U16 => Typ::U16,
            Typ::U32 => Typ::U32,
            Typ::U64 => Typ::U64,
            Typ::U128 => Typ::U128,
            Typ::Usize => Typ::Usize,
            Typ::F32 => Typ::F32,
            Typ::F64 => Typ::F64,
            Typ::Bool => Typ::Bool,
            Typ::Char => Typ::Char,
            Typ::String => Typ::String,
            Typ::Vec(inner) => Typ::Vec(Box::new((**inner).clone())),
        }
    }
}

impl Clone for Primitive {
    /// Cloning preserves the view.
    fn clone(&self) -> (r: Primitive)
        ensures
            r@ == self@,
    {
        Primitive { name: self.name.clone(), typ: self.typ.clone(), doc: self.doc.clone() }
    }
}

impl Clone for Variant {
    /// Cloning preserves the view.
    fn clone(&self) -> (r: Variant)
        ensures
            r@ == self@,
    {
        Variant { name: self.name.clone(), doc: self.doc.clone() }
    }
}

impl Clone for Enum {
    /// Cloning preserves the view.
    fn clone(&self) -> (r: Enum)
        ensures
            r@ == self@,
    {
        let mut variants: Vec<Variant> = Vec::new();
        let mut i: usize = 0;
        while i < self.variants.len()
            invariant
                i <= self.variants@.len(),
                variants@.len() == i,
                forall|j: int| 0 <= j < i ==> #[trigger] variants@[j]@ == self.variants@[j]@,
            decreases self.variants@.len() - i,
        {
            let v = self.variants[i].clone();
            variants.push(v);
            i += 1;
        }
        let r = Enum { name: self.name.clone(), doc: self.doc.clone(), variants };
        proof {
            assert forall|j: int| 0 <= j < r.variants@.len() implies r@.variants[j]
                == self@.variants[j] by {
                assert(r.variants@[j]@ == self.variants@[j]@);
            }
            assert(r@.variants =~= self@.variants);
            assert(r@ =~= self@);
        }
        r
    }
}

impl Clone for Field {
    /// Cloning preserves the view of the whole subtree.
    fn clone(&self) -> (r: Field)
        ensures
            r@ == self@,
        decreases *self,
    {
        match self {
            Field::Primitive(p) => Field::Primitive(p.clone()),
            Field::Container(c) => Field::Container(c.clone()),
            Field::Enum(e) => Field::Enum(e.clone()),
        }
    }
}

impl Clone for Container {
    /// Cloning preserves the view of the whole subtree.
    fn clone(&self) -> (r: Container)
        ensures
            r@ == self@,
        decreases *self,
    {
        let mut fields: Vec<Field> = Vec::new();
        let mut i: usize = 0;
        while i < self.fields.len()
            invariant
                i <= self.fields@.len(),
                fields@.len() == i,
                forall|j: int| 0 <= j < i ==> #[trigger] fields@[j]@ == self.fields@[j]@,
            decreases self.fields@.len() - i,
        {
            let f = self.fields[i].clone();
            fields.push(f);
            i += 1;
        }
        let r = Container {
            name: self.name.clone(),
            typename: self.typename.clone(),
            fields,
            doc: self.doc.clone(),
        };
        proof {
            lemma_fields_view_index(r.fields@);
            lemma_fields_view_index(self.fields@);
            assert forall|j: int| 0 <= j < r.fields@.len() implies r@.fields[j]
                == self@.fields[j] by {
                assert(r.fields@[j]@ == self.fields@[j]@);
            }
            assert(r@.fields =~= self@.fields);
            assert(r@ =~= self@);
        }
        r
    }
}

} // verus!
