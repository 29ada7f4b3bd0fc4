//! A structural documentation model for typed data definitions.
//!
//! The crate builds an in-memory documentation tree (primitives, containers,
//! enums with plain variants), transforms field and variant names according
//! to common serialization naming conventions, and renders the tree to
//! deterministic nested plain text.

pub mod chars;
pub mod doc_text;
pub mod model;
pub mod naming;
pub mod render;

use vstd::prelude::*;

use crate::model::Field;
use crate::model::FieldView;
use crate::model::Primitive;
use crate::model::PrimitiveView;
use crate::model::Typ;

verus! {

/// A primitive documentation leaf for a scalar type tag, with no name and
/// no doc text yet: the producer fills those in for the enclosing slot.
pub open spec fn primitive_leaf(t: Typ) -> FieldView {
    FieldView::Primitive(PrimitiveView { name: Seq::empty(), typ: t, doc: Seq::empty() })
}

/// The scalar tag a sequence element contributes: its own tag for a
/// primitive element, a string placeholder for a structured element.
pub open spec fn element_typ(f: FieldView) -> Typ {
    match f {
        FieldView::Primitive(p) => p.typ,
        FieldView::Container(_) => Typ::String,
        FieldView::Enum(_) => Typ::String,
    }
}

fn primitive_field(t: Typ) -> (f: Field)
    ensures
        f@ == primitive_leaf(t),
{
    let f = Field::Primitive(Primitive { name: String::new(), typ: t, doc: String::new() });
    proof {
        assert(f@ =~= primitive_leaf(f->Primitive_0.typ));
    }
    f
}

/// The producer interface: a type that can describe its own shape as a
/// documentation tree.
pub trait Dox {
    /// The tree that [`Dox::dox`] builds, as a ghost value.
    spec fn dox_spec() -> FieldView;

    /// Builds the documentation tree for this type.
    fn dox() -> (f: Field)
        ensures
            f@ == Self::dox_spec(),
    ;
}

/// A renderer turns a documentation tree into a report string.
pub trait Renderer {
    /// The text this renderer produces for a given tree.
    spec fn render_spec(&self, doc_type: FieldView) -> Seq<char>;

    /// Renders the tree; the result is exactly what
    /// [`Renderer::render_spec`] states.
    fn render(&self, doc_type: Field) -> (r: String)
        ensures
            r@ == self.render_spec(doc_type@),
    ;
}

/// Renders the documentation tree of type `T` with the given renderer.
pub fn render<T: Dox, R: Renderer>(renderer: &R) -> (r: String)
    ensures
        r@ == renderer.render_spec(T::dox_spec()),
{
    renderer.render(T::dox())
}

impl Dox for i8 {
    open spec fn dox_spec() -> FieldView {
        primitive_leaf(Typ::I8)
    }

    fn dox() -> (f: Field) {
        primitive_field(Typ::I8)
    }
}

impl Dox for i16 {
    open spec fn dox_spec() -> FieldView {
        primitive_leaf(Typ::I16)
    }

    fn dox() -> (f: Field) {
        primitive_field(Typ::I16)
    }
}

impl Dox for i32 {
    open spec fn dox_spec() -> FieldView {
        primitive_leaf(Typ::I32)
    }

    fn dox() -> (f: Field) {
        primitive_field(Typ::I32)
    }
}

impl Dox for i64 {
    open spec fn dox_spec() -> FieldView {
        primitive_leaf(Typ::I64)
    }

    fn dox() -> (f: Field) {
        primitive_field(Typ::I64)
    }
}

impl Dox for i128 {
    open spec fn dox_spec() -> FieldView {
        primitive_leaf(Typ::I128)
    }

    fn dox() -> (f: Field) {
        primitive_field(Typ::I128)
    }
}

impl Dox for isize {
    open spec fn dox_spec() -> FieldView {
        primitive_leaf(Typ::Isize)
    }

    fn dox() -> (f: Field) {
        primitive_field(Typ::Isize)
    }
}

impl Dox for u8 {
    open spec fn dox_spec() -> FieldView {
        primitive_leaf(Typ::U8)
    }

    fn dox() -> (f: Field) {
        primitive_field(Typ::U8)
    }
}

impl Dox for u16 {
    open spec fn dox_spec() -> FieldView {
        primitive_leaf(Typ::U16)
    }

    fn dox() -> (f: Field) {
        primitive_field(Typ::U16)
    }
}

impl Dox for u32 {
    open spec fn dox_spec() -> FieldView {
        primitive_leaf(Typ::U32)
    }

    fn dox() -> (f: Field) {
        primitive_field(Typ::U32)
    }
}

impl Dox for u64 {
    open spec fn dox_spec() -> FieldView {
        primitive_leaf(Typ::U64)
    }

    fn dox() -> (f: Field) {
        primitive_field(Typ::U64)
    }
}

impl Dox for u128 {
    open spec fn dox_spec() -> FieldView {
        primitive_leaf(Typ::U128)
    }

    fn dox() -> (f: Field) {
        primitive_field(Typ::U128)
    }
}

impl Dox for usize {
    open spec fn dox_spec() -> FieldView {
        primitive_leaf(Typ::Usize)
    }

    fn dox() -> (f: Field) {
        primitive_field(Typ::Usize)
    }
}

impl Dox for bool {
    open spec fn dox_spec() -> FieldView {
        primitive_leaf(Typ::Bool)
    }

    fn dox() -> (f: Field) {
        primitive_field(Typ::Bool)
    }
}

impl Dox for char {
    open spec fn dox_spec() -> FieldView {
        primitive_leaf(Typ::Char)
    }

    fn dox() -> (f: Field) {
        primitive_field(Typ::Char)
    }
}

impl Dox for String {
    open spec fn dox_spec() -> FieldView {
        primitive_leaf(Typ::String)
    }

    fn dox() -> (f: Field) {
        primitive_field(Typ::String)
    }
}

impl<T: Dox> Dox for Vec<T> {
    open spec fn dox_spec() -> FieldView {
        primitive_leaf(Typ::Vec(Box::new(element_typ(T::dox_spec()))))
    }

    fn dox() -> (f: Field) {
        let inner = T::dox();
        let inner_typ = match inner {
            Field::Primitive(p) => p.typ,
            // a structured element has no scalar tag of its own; the
            // sequence falls back to a string element
            Field::Container(_) => Typ::String,
            Field::Enum(_) => Typ::String,
        };
        primitive_field(Typ::Vec(Box::new(inner_typ)))
    }
}

} // verus!
