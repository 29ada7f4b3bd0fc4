//! The plain-text renderer.
//!
//! A container renders as a heading, an `=` underline, its doc line, a
//! blank line, and one line per direct child in declaration order; child
//! containers and enums are then rendered in full below, in the same
//! order, each separated by a blank line. An enum renders as a heading,
//! underline, doc, and one line per variant. A bare primitive at top level
//! renders to nothing: its name only means something inside a parent.

use vstd::prelude::*;

use crate::Renderer;
use crate::chars::push_char;
use crate::model::Container;
use crate::model::ContainerView;
use crate::model::Enum;
use crate::model::EnumView;
use crate::model::Field;
use crate::model::FieldView;
use crate::model::Variant;
use crate::model::VariantView;
use crate::model::lemma_fields_view_index;
use crate::model::typ_text_spec;

verus! {

/// A run of `n` equals signs, used to underline headings.
pub open spec fn eq_of(n: nat) -> Seq<char> {
    Seq::new(n, |i: int| '=')
}

/// The slot name a child line shows.
pub open spec fn field_name(f: FieldView) -> Seq<char> {
    match f {
        FieldView::Primitive(p) => p.name,
        FieldView::Container(c) => c.name,
        FieldView::Enum(e) => e.name,
    }
}

/// The doc text a child line shows.
pub open spec fn field_doc(f: FieldView) -> Seq<char> {
    match f {
        FieldView::Primitive(p) => p.doc,
        FieldView::Container(c) => c.doc,
        FieldView::Enum(e) => e.doc,
    }
}

/// The parenthesised label a child line shows: the primitive's type text,
/// a nested container's type identifier, or the literal `enum` marker.
pub open spec fn field_label(f: FieldView) -> Seq<char> {
    match f {
        FieldView::Primitive(p) => typ_text_spec(p.typ),
        FieldView::Container(c) => c.typename,
        FieldView::Enum(e) => "enum"@,
    }
}

/// One direct-child line of a container section.
pub open spec fn line_of(f: FieldView) -> Seq<char> {
    "- "@ + field_name(f) + " ("@ + field_label(f) + "): "@ + field_doc(f) + "\n"@
}

/// The direct-child lines of a container, in declaration order.
pub open spec fn field_lines_spec(fs: Seq<FieldView>) -> Seq<char>
    decreases fs.len(),
{
    if fs.len() == 0 {
        Seq::empty()
    } else {
        line_of(fs[0]) + field_lines_spec(fs.drop_first())
    }
}

/// One variant line of an enum section.
pub open spec fn variant_line_of(v: VariantView) -> Seq<char> {
    "- "@ + v.name + ": "@ + v.doc + "\n"@
}

/// The variant lines of an enum, in declaration order.
pub open spec fn variant_lines_spec(vs: Seq<VariantView>) -> Seq<char>
    decreases vs.len(),
{
    if vs.len() == 0 {
        Seq::empty()
    } else {
        variant_line_of(vs[0]) + variant_lines_spec(vs.drop_first())
    }
}

/// True for the children that get a full nested section of their own.
pub open spec fn is_nested(f: FieldView) -> bool {
    !(f is Primitive)
}

/// The heading block of a container section: name line, underline, doc,
/// blank line.
pub open spec fn container_heading(c: ContainerView) -> Seq<char> {
    c.typename + "\n"@ + eq_of(c.typename.len()) + "\n"@ + c.doc + "\n\n"@
}

/// The full rendering of an enum at top level.
pub open spec fn render_enum_spec(e: EnumView) -> Seq<char> {
    e.name + " (enum)\n"@ + eq_of(e.name.len() + 7) + "\n"@ + e.doc + "\n\n"@ + "Variants:\n"@
        + variant_lines_spec(e.variants)
}

/// The nested sections below a container's child lines: every container or
/// enum child in order, each preceded by a blank line.
pub open spec fn nested_section_spec(fs: Seq<FieldView>) -> Seq<char>
    decreases fs,
{
    if fs.len() == 0 {
        Seq::empty()
    } else {
        let head = if is_nested(fs[0]) {
            "\n"@ + render_field_spec(fs[0])
        } else {
            Seq::<char>::empty()
        };
        head + nested_section_spec(fs.drop_first())
    }
}

/// The full rendering of a container at top level.
pub open spec fn render_container_spec(c: ContainerView) -> Seq<char>
    decreases c,
{
    container_heading(c) + field_lines_spec(c.fields) + nested_section_spec(c.fields)
}

/// The full rendering of any tree: empty for a bare primitive.
pub open spec fn render_field_spec(f: FieldView) -> Seq<char>
    decreases f,
{
    match f {
        FieldView::Primitive(_) => Seq::empty(),
        FieldView::Container(c) => render_container_spec(c),
        FieldView::Enum(e) => render_enum_spec(e),
    }
}

proof fn lemma_field_lines_snoc(s: Seq<FieldView>, x: FieldView)
    ensures
        field_lines_spec(s.push(x)) == field_lines_spec(s) + line_of(x),
    decreases s.len(),
{
    if s.len() == 0 {
        assert(s.push(x)[0] == x);
        assert(s.push(x).drop_first() =~= Seq::<FieldView>::empty());
        assert(field_lines_spec(s) == Seq::<char>::empty());
        assert(field_lines_spec(s.push(x)) == line_of(x) + field_lines_spec(
            s.push(x).drop_first(),
        ));
        assert(field_lines_spec(s.push(x)) =~= field_lines_spec(s) + line_of(x));
    } else {
        assert(s.push(x)[0] == s[0]);
        assert(s.push(x).drop_first() =~= s.drop_first().push(x));
        lemma_field_lines_snoc(s.drop_first(), x);
        assert(field_lines_spec(s.push(x)) == line_of(s[0]) + (field_lines_spec(s.drop_first())
            + line_of(x)));
        assert(line_of(s[0]) + (field_lines_spec(s.drop_first()) + line_of(x)) =~= (line_of(s[0])
            + field_lines_spec(s.drop_first())) + line_of(x));
    }
}

proof fn lemma_variant_lines_snoc(s: Seq<VariantView>, x: VariantView)
    ensures
        variant_lines_spec(s.push(x)) == variant_lines_spec(s) + variant_line_of(x),
    decreases s.len(),
{
    if s.len() == 0 {
        assert(s.push(x)[0] == x);
        assert(s.push(x).drop_first() =~= Seq::<VariantView>::empty());
        assert(variant_lines_spec(s) == Seq::<char>::empty());
        assert(variant_lines_spec(s.push(x)) == variant_line_of(x) + variant_lines_spec(
            s.push(x).drop_first(),
        ));
        assert(variant_lines_spec(s.push(x)) =~= variant_lines_spec(s) + variant_line_of(x));
    } else {
        assert(s.push(x)[0] == s[0]);
        assert(s.push(x).drop_first() =~= s.drop_first().push(x));
        lemma_variant_lines_snoc(s.drop_first(), x);
        assert(variant_lines_spec(s.push(x)) == variant_line_of(s[0]) + (variant_lines_spec(
            s.drop_first(),
        ) + variant_line_of(x)));
        assert(variant_line_of(s[0]) + (variant_lines_spec(s.drop_first()) + variant_line_of(x))
            =~= (variant_line_of(s[0]) + variant_lines_spec(s.drop_first())) + variant_line_of(x));
    }
}

proof fn lemma_nested_section_snoc(s: Seq<FieldView>, x: FieldView)
    ensures
        nested_section_spec(s.push(x)) == nested_section_spec(s) + (if is_nested(x) {
            "\n"@ + render_field_spec(x)
        } else {
            Seq::<char>::empty()
        }),
    decreases s.len(),
{
    let tail = if is_nested(x) {
        "\n"@ + render_field_spec(x)
    } else {
        Seq::<char>::empty()
    };
    if s.len() == 0 {
        assert(s.push(x)[0] == x);
        assert(s.push(x).drop_first() =~= Seq::<FieldView>::empty());
        assert(nested_section_spec(s) == Seq::<char>::empty());
        assert(nested_section_spec(s.push(x)) == tail + nested_section_spec(
            s.push(x).drop_first(),
        ));
        assert(nested_section_spec(s.push(x)) =~= nested_section_spec(s) + tail);
    } else {
        let head = if is_nested(s[0]) {
            "\n"@ + render_field_spec(s[0])
        } else {
            Seq::<char>::empty()
        };
        assert(s.push(x)[0] == s[0]);
        assert(s.push(x).drop_first() =~= s.drop_first().push(x));
        lemma_nested_section_snoc(s.drop_first(), x);
        assert(nested_section_spec(s.push(x)) == head + (nested_section_spec(s.drop_first())
            + tail));
        assert(head + (nested_section_spec(s.drop_first()) + tail) =~= (head + nested_section_spec(
            s.drop_first(),
        )) + tail);
    }
}

/// A run of `n` equals signs as a string.
fn eq_line(n: usize) -> (r: String)
    ensures
        r@ == eq_of(n as nat),
{
    let mut r = String::new();
    let mut i: usize = 0;
    while i < n
        invariant
            i <= n,
            r@ == eq_of(i as nat),
        decreases n - i,
    {
        push_char(&mut r, '=');
        proof {
            assert(eq_of((i + 1) as nat) =~= eq_of(i as nat).push('='));
        }
        i += 1;
    }
    r
}

/// One direct-child line, exactly as [`line_of`] states it.
fn field_line(f: &Field) -> (r: String)
    ensures
        r@ == line_of(f@),
{
    let mut r = "- ".to_owned();
    match f {
        Field::Primitive(p) => {
            r.append(p.name.as_str());
            r.append(" (");
            let t = p.typ.to_text();
            r.append(t.as_str());
            r.append("): ");
            r.append(p.doc.as_str());
            r.append("\n");
        },
        Field::Container(c) => {
            r.append(c.name.as_str());
            r.append(" (");
            r.append(c.typename.as_str());
            r.append("): ");
            r.append(c.doc.as_str());
            r.append("\n");
        },
        Field::Enum(e) => {
            r.append(e.name.as_str());
            r.append(" (");
            r.append("enum");
            r.append("): ");
            r.append(e.doc.as_str());
            r.append("\n");
        },
    }
    proof {
        assert(r@ =~= line_of(f@));
    }
    r
}

/// One variant line, exactly as [`variant_line_of`] states it.
fn variant_line(v: &Variant) -> (r: String)
    ensures
        r@ == variant_line_of(v@),
{
    let mut r = "- ".to_owned();
    r.append(v.name.as_str());
    r.append(": ");
    r.append(v.doc.as_str());
    r.append("\n");
    proof {
        assert(r@ =~= variant_line_of(v@));
    }
    r
}

/// Renders an enum section: heading, underline, doc, blank line, the
/// `Variants:` marker, and one line per variant in declaration order.
pub fn render_enum(enum_type: &Enum) -> (r: String)
    ensures
        r@ == render_enum_spec(enum_type@),
{
    let mut r = String::new();
    r.append(enum_type.name.as_str());
    r.append(" (enum)\n");
    let n = enum_type.name.as_str().unicode_len();
    let mut underline = eq_line(n);
    let extra = eq_line(7);
    underline.append(extra.as_str());
    proof {
        assert(underline@ =~= eq_of(enum_type.name@.len() + 7));
    }
    r.append(underline.as_str());
    r.append("\n");
    r.append(enum_type.doc.as_str());
    r.append("\n\n");
    r.append("Variants:\n");
    let ghost head = enum_type@.name + " (enum)\n"@ + eq_of(enum_type@.name.len() + 7) + "\n"@
        + enum_type@.doc + "\n\n"@ + "Variants:\n"@;
    proof {
        assert(r@ =~= head + variant_lines_spec(enum_type@.variants.subrange(0, 0)));
    }
    let mut i: usize = 0;
    while i < enum_type.variants.len()
        invariant
            i <= enum_type.variants@.len(),
            enum_type@.variants.len() == enum_type.variants@.len(),
            r@ == head + variant_lines_spec(enum_type@.variants.subrange(0, i as int)),
        decreases enum_type.variants@.len() - i,
    {
        let line = variant_line(&enum_type.variants[i]);
        r.append(line.as_str());
        proof {
            let vs = enum_type@.variants;
            assert(vs[i as int] == enum_type.variants@[i as int]@);
            assert(vs.subrange(0, i + 1) =~= vs.subrange(0, i as int).push(vs[i as int]));
            lemma_variant_lines_snoc(vs.subrange(0, i as int), vs[i as int]);
        }
        i += 1;
    }
    proof {
        assert(enum_type@.variants.subrange(0, enum_type.variants@.len() as int)
            =~= enum_type@.variants);
    }
    r
}

/// Renders a container section: heading block, one line per direct child,
/// then the full nested sections of its container and enum children.
pub fn render_container(container: &Container) -> (r: String)
    ensures
        r@ == render_container_spec(container@),
    decreases *container,
{
    let mut r = String::new();
    r.append(container.typename.as_str());
    r.append("\n");
    let underline = eq_line(container.typename.as_str().unicode_len());
    r.append(underline.as_str());
    r.append("\n");
    r.append(container.doc.as_str());
    r.append("\n\n");
    proof {
        lemma_fields_view_index(container.fields@);
        assert(r@ =~= container_heading(container@));
        assert(r@ =~= container_heading(container@) + field_lines_spec(
            container@.fields.subrange(0, 0),
        ));
    }
    let mut i: usize = 0;
    while i < container.fields.len()
        invariant
            i <= container.fields@.len(),
            container@.fields.len() == container.fields@.len(),
            forall|j: int|
                0 <= j < container.fields@.len() ==> #[trigger] container@.fields[j]
                    == container.fields@[j]@,
            r@ == container_heading(container@) + field_lines_spec(
                container@.fields.subrange(0, i as int),
            ),
        decreases container.fields@.len() - i,
    {
        let line = field_line(&container.fields[i]);
        r.append(line.as_str());
        proof {
            let fs = container@.fields;
            assert(fs.subrange(0, i + 1) =~= fs.subrange(0, i as int).push(fs[i as int]));
            lemma_field_lines_snoc(fs.subrange(0, i as int), fs[i as int]);
        }
        i += 1;
    }
    proof {
        assert(container@.fields.subrange(0, container.fields@.len() as int)
            =~= container@.fields);
        assert(nested_section_spec(container@.fields.subrange(0, 0))
            =~= Seq::<char>::empty());
        assert(r@ =~= container_heading(container@) + field_lines_spec(container@.fields)
            + nested_section_spec(container@.fields.subrange(0, 0)));
    }
    let ghost done = container_heading(container@) + field_lines_spec(container@.fields);
    let mut i: usize = 0;
    while i < container.fields.len()
        invariant
            i <= container.fields@.len(),
            container@.fields.len() == container.fields@.len(),
            forall|j: int|
                0 <= j < container.fields@.len() ==> #[trigger] container@.fields[j]
                    == container.fields@[j]@,
            r@ == done + nested_section_spec(container@.fields.subrange(0, i as int)),
        decreases container.fields@.len() - i,
    {
        match &container.fields[i] {
            Field::Primitive(_) => {},
            Field::Container(nested) => {
                r.append("\n");
                let section = render_container(nested);
                r.append(section.as_str());
            },
            Field::Enum(nested) => {
                r.append("\n");
                let section = render_enum(nested);
                r.append(section.as_str());
            },
        }
        proof {
            let fs = container@.fields;
            assert(fs.subrange(0, i + 1) =~= fs.subrange(0, i as int).push(fs[i as int]));
            lemma_nested_section_snoc(fs.subrange(0, i as int), fs[i as int]);
        }
        i += 1;
    }
    proof {
        assert(container@.fields.subrange(0, container.fields@.len() as int)
            =~= container@.fields);
    }
    r
}

/// Renders any tree from the root: a full section for a container or
/// enum, nothing for a bare primitive.
pub fn render_field(doc_type: &Field) -> (r: String)
    ensures
        r@ == render_field_spec(doc_type@),
{
    match doc_type {
        Field::Container(container) => render_container(container),
        Field::Primitive(_) => String::new(),
        Field::Enum(enum_type) => render_enum(enum_type),
    }
}

/// True when `part` occurs somewhere in `whole` as one contiguous run.
pub open spec fn occurs_in(whole: Seq<char>, part: Seq<char>) -> bool {
    exists|k: int|
        0 <= k && k + part.len() <= whole.len() && #[trigger] whole.subrange(
            k,
            k + part.len() as int,
        ) == part
}

proof fn lemma_occurs_in_concat_left(a: Seq<char>, b: Seq<char>, part: Seq<char>)
    requires
        occurs_in(b, part),
    ensures
        occurs_in(a + b, part),
{
    let k = choose|k: int|
        0 <= k && k + part.len() <= b.len() && #[trigger] b.subrange(k, k + part.len() as int)
            == part;
    assert((a + b).subrange(a.len() + k, a.len() + k + part.len() as int) =~= b.subrange(
        k,
        k + part.len() as int,
    ));
}

proof fn lemma_occurs_in_concat_right(a: Seq<char>, b: Seq<char>, part: Seq<char>)
    requires
        occurs_in(a, part),
    ensures
        occurs_in(a + b, part),
{
    let k = choose|k: int|
        0 <= k && k + part.len() <= a.len() && #[trigger] a.subrange(k, k + part.len() as int)
            == part;
    assert((a + b).subrange(k, k + part.len() as int) =~= a.subrange(k, k + part.len() as int));
}

proof fn lemma_nested_section_occurs(fs: Seq<FieldView>, i: int)
    requires
        0 <= i < fs.len(),
        is_nested(fs[i]),
    ensures
        occurs_in(nested_section_spec(fs), render_field_spec(fs[i])),
    decreases fs.len(),
{
    let head = if is_nested(fs[0]) {
        "\n"@ + render_field_spec(fs[0])
    } else {
        Seq::<char>::empty()
    };
    assert(nested_section_spec(fs) == head + nested_section_spec(fs.drop_first()));
    if i == 0 {
        let part = render_field_spec(fs[0]);
        reveal_strlit("\n");
        assert(head.subrange(1, 1 + part.len() as int) =~= part);
        assert(occurs_in(head, part));
        lemma_occurs_in_concat_right(head, nested_section_spec(fs.drop_first()), part);
    } else {
        assert(fs.drop_first()[i - 1] == fs[i]);
        lemma_nested_section_occurs(fs.drop_first(), i - 1);
        lemma_occurs_in_concat_left(
            head,
            nested_section_spec(fs.drop_first()),
            render_field_spec(fs[i]),
        );
    }
}

/// Round-trip on nesting: the section a parent emits for one of its
/// container or enum children is, verbatim, that child's own full
/// top-level rendering.
pub proof fn lemma_nested_render_roundtrip(c: ContainerView, i: int)
    requires
        0 <= i < c.fields.len(),
        is_nested(c.fields[i]),
    ensures
        occurs_in(render_container_spec(c), render_field_spec(c.fields[i])),
{
    lemma_nested_section_occurs(c.fields, i);
    lemma_occurs_in_concat_left(
        container_heading(c) + field_lines_spec(c.fields),
        nested_section_spec(c.fields),
        render_field_spec(c.fields[i]),
    );
}

/// Rendering is deterministic: structurally equal trees produce identical
/// text.
pub proof fn lemma_render_deterministic(f1: FieldView, f2: FieldView)
    requires
        f1 == f2,
    ensures
        render_field_spec(f1) == render_field_spec(f2),
{
}

/// The plain-text renderer.
pub struct Text;

impl Renderer for Text {
    /// The text renderer produces exactly [`render_field_spec`].
    open spec fn render_spec(&self, doc_type: FieldView) -> Seq<char> {
        render_field_spec(doc_type)
    }

    fn render(&self, doc_type: Field) -> (r: String) {
        render_field(&doc_type)
    }
}

} // verus!
