//! The naming engine: identifier case conversion.
//!
//! A [`NamingRule`] selects one of the common serialization naming
//! conventions. [`apply_rule`] transforms an identifier under a rule and
//! [`resolve_name`] picks between an explicit override, a rule, and the
//! identity. All transforms are pure, total functions over the identifier's
//! characters, with ASCII-only case folding: non-ASCII characters pass
//! through unchanged.

use vstd::prelude::*;

use crate::chars::is_ascii_upper;
use crate::chars::lower_char;
use crate::chars::push_char;
use crate::chars::str_eq;
use crate::chars::to_lower_char;
use crate::chars::to_upper_char;
use crate::chars::upper_char;

verus! {

/// The supported identifier case-conversion conventions.
#[derive(Clone, Copy, Debug, PartialEq, Eq, Structural)]
pub enum NamingRule {
    Lower,
    Upper,
    Pascal,
    Camel,
    Snake,
    ScreamingSnake,
    Kebab,
    ScreamingKebab,
}

/// Whole-string ASCII lowercase folding.
pub open spec fn lower_of(s: Seq<char>) -> Seq<char> {
    s.map_values(|c: char| to_lower_char(c))
}

/// Whole-string ASCII uppercase folding.
pub open spec fn upper_of(s: Seq<char>) -> Seq<char> {
    s.map_values(|c: char| to_upper_char(c))
}

/// Every underscore replaced by a dash; all other characters unchanged.
pub open spec fn dashed_of(s: Seq<char>) -> Seq<char> {
    s.map_values(|c: char| if c == '_' { '-' } else { c })
}

/// Snake-case conversion: an ASCII uppercase letter anywhere but at the
/// start opens a new word (an underscore is inserted before it), and every
/// character is lowercase folded. Existing underscores pass through as
/// ordinary word characters.
pub open spec fn snake_of(s: Seq<char>) -> Seq<char>
    decreases s.len(),
{
    if s.len() == 0 {
        Seq::empty()
    } else {
        let c = s.last();
        let folded = if is_ascii_upper(c) && s.len() > 1 {
            seq!['_', to_lower_char(c)]
        } else {
            seq![to_lower_char(c)]
        };
        snake_of(s.drop_last()) + folded
    }
}

/// Pascal-case conversion: underscores are dropped, the first character of
/// each underscore-separated segment is uppercase folded, and the remaining
/// characters keep their original casing.
pub open spec fn pascal_of(s: Seq<char>) -> Seq<char>
    decreases s.len(),
{
    if s.len() == 0 {
        Seq::empty()
    } else {
        let c = s.last();
        let folded = if c == '_' {
            Seq::<char>::empty()
        } else if s.len() == 1 || s[s.len() - 2] == '_' {
            seq![to_upper_char(c)]
        } else {
            seq![c]
        };
        pascal_of(s.drop_last()) + folded
    }
}

/// Camel-case conversion: pascal-case with the first character of the
/// result lowercase folded.
pub open spec fn camel_of(s: Seq<char>) -> Seq<char> {
    let p = pascal_of(s);
    if p.len() == 0 {
        p
    } else {
        seq![to_lower_char(p[0])] + p.drop_first()
    }
}

/// Screaming-snake-case conversion: snake case, then uppercase folding.
pub open spec fn screaming_snake_of(s: Seq<char>) -> Seq<char> {
    upper_of(snake_of(s))
}

/// Kebab-case conversion: snake case with dashes for underscores.
pub open spec fn kebab_of(s: Seq<char>) -> Seq<char> {
    dashed_of(snake_of(s))
}

/// Screaming-kebab-case conversion: screaming snake case with dashes for
/// underscores.
pub open spec fn screaming_kebab_of(s: Seq<char>) -> Seq<char> {
    dashed_of(screaming_snake_of(s))
}

/// The transform that each rule denotes.
pub open spec fn apply_rule_spec(s: Seq<char>, rule: NamingRule) -> Seq<char> {
    match rule {
        NamingRule::Lower => lower_of(s),
        NamingRule::Upper => upper_of(s),
        NamingRule::Pascal => pascal_of(s),
        NamingRule::Camel => camel_of(s),
        NamingRule::Snake => snake_of(s),
        NamingRule::ScreamingSnake => screaming_snake_of(s),
        NamingRule::Kebab => kebab_of(s),
        NamingRule::ScreamingKebab => screaming_kebab_of(s),
    }
}

fn map_chars_lower(s: &str) -> (r: String)
    ensures
        r@ == lower_of(s@),
{
    let n = s.unicode_len();
    let mut r = String::new();
    let mut i: usize = 0;
    while i < n
        invariant
            i <= n,
            n == s@.len(),
            r@ == lower_of(s@.subrange(0, i as int)),
        decreases n - i,
    {
        let c = s.get_char(i);
        push_char(&mut r, lower_char(c));
        proof {
            assert(lower_of(s@.subrange(0, i + 1)) =~= lower_of(
                s@.subrange(0, i as int),
            ).push(to_lower_char(s@[i as int])));
        }
        i += 1;
    }
    proof {
        assert(s@.subrange(0, n as int) =~= s@);
    }
    r
}

fn map_chars_upper(s: &str) -> (r: String)
    ensures
        r@ == upper_of(s@),
{
    let n = s.unicode_len();
    let mut r = String::new();
    let mut i: usize = 0;
    while i < n
        invariant
            i <= n,
            n == s@.len(),
            r@ == upper_of(s@.subrange(0, i as int)),
        decreases n - i,
    {
        let c = s.get_char(i);
        push_char(&mut r, upper_char(c));
        proof {
            assert(upper_of(s@.subrange(0, i + 1)) =~= upper_of(
                s@.subrange(0, i as int),
            ).push(to_upper_char(s@[i as int])));
        }
        i += 1;
    }
    proof {
        assert(s@.subrange(0, n as int) =~= s@);
    }
    r
}

fn map_chars_dashed(s: &str) -> (r: String)
    ensures
        r@ == dashed_of(s@),
{
    let n = s.unicode_len();
    let mut r = String::new();
    let mut i: usize = 0;
    while i < n
        invariant
            i <= n,
            n == s@.len(),
            r@ == dashed_of(s@.subrange(0, i as int)),
        decreases n - i,
    {
        let c = s.get_char(i);
        if c == '_' {
            push_char(&mut r, '-');
        } else {
            push_char(&mut r, c);
        }
        proof {
            assert(dashed_of(s@.subrange(0, i + 1)) =~= dashed_of(s@.subrange(0, i as int)).push(
                if s@[i as int] == '_' {
                    '-'
                } else {
                    s@[i as int]
                },
            ));
        }
        i += 1;
    }
    proof {
        assert(s@.subrange(0, n as int) =~= s@);
    }
    r
}

fn to_snake(s: &str) -> (r: String)
    ensures
        r@ == snake_of(s@),
{
    let n = s.unicode_len();
    let mut r = String::new();
    let mut i: usize = 0;
    while i < n
        invariant
            i <= n,
            n == s@.len(),
            r@ == snake_of(s@.subrange(0, i as int)),
        decreases n - i,
    {
        let c = s.get_char(i);
        let u = c as u32;
        if ('A' as u32) <= u && u <= ('Z' as u32) && i > 0 {
            push_char(&mut r, '_');
        }
        push_char(&mut r, lower_char(c));
        proof {
            let pre = s@.subrange(0, i as int);
            let cur = s@.subrange(0, i + 1);
            assert(cur.drop_last() =~= pre);
            assert(cur.last() == s@[i as int]);
        }
        i += 1;
    }
    proof {
        assert(s@.subrange(0, n as int) =~= s@);
    }
    r
}

fn to_pascal(s: &str) -> (r: String)
    ensures
        r@ == pascal_of(s@),
{
    let n = s.unicode_len();
    let mut r = String::new();
    let mut i: usize = 0;
    while i < n
        invariant
            i <= n,
            n == s@.len(),
            r@ == pascal_of(s@.subrange(0, i as int)),
        decreases n - i,
    {
        let c = s.get_char(i);
        if c == '_' {
            // dropped: an underscore only separates segments
        } else if i == 0 {
            push_char(&mut r, upper_char(c));
        } else {
            let prev = s.get_char(i - 1);
            if prev == '_' {
                push_char(&mut r, upper_char(c));
            } else {
                push_char(&mut r, c);
            }
        }
        proof {
            let pre = s@.subrange(0, i as int);
            let cur = s@.subrange(0, i + 1);
            assert(cur.drop_last() =~= pre);
            assert(cur.last() == s@[i as int]);
        }
        i += 1;
    }
    proof {
        assert(s@.subrange(0, n as int) =~= s@);
    }
    r
}

fn to_camel(s: &str) -> (r: String)
    ensures
        r@ == camel_of(s@),
{
    let p = to_pascal(s);
    if p.as_str().is_empty() {
        p
    } else {
        let n = p.as_str().unicode_len();
        let first = p.as_str().get_char(0);
        let mut r = String::new();
        push_char(&mut r, lower_char(first));
        let rest = p.as_str().substring_char(1, n);
        r.append(rest);
        proof {
            assert(r@ =~= camel_of(s@));
        }
        r
    }
}

/// Transforms an identifier under the given naming rule.
///
/// The result is exactly [`apply_rule_spec`] of the identifier's
/// characters; in particular the empty identifier maps to the empty
/// string under every rule.
pub fn apply_rule(identifier: &str, rule: NamingRule) -> (r: String)
    ensures
        r@ == apply_rule_spec(identifier@, rule),
{
    match rule {
        NamingRule::Lower => map_chars_lower(identifier),
        NamingRule::Upper => map_chars_upper(identifier),
        NamingRule::Pascal => to_pascal(identifier),
        NamingRule::Camel => to_camel(identifier),
        NamingRule::Snake => to_snake(identifier),
        NamingRule::ScreamingSnake => {
            let t = to_snake(identifier);
            map_chars_upper(t.as_str())
        },
        NamingRule::Kebab => {
            let t = to_snake(identifier);
            map_chars_dashed(t.as_str())
        },
        NamingRule::ScreamingKebab => {
            let t = to_snake(identifier);
            let u = map_chars_upper(t.as_str());
            map_chars_dashed(u.as_str())
        },
    }
}

/// Every rule maps the empty identifier to the empty string.
pub proof fn lemma_apply_rule_empty(rule: NamingRule)
    ensures
        apply_rule_spec(Seq::empty(), rule) == Seq::<char>::empty(),
{
    let e = Seq::<char>::empty();
    assert(lower_of(e) =~= e);
    assert(upper_of(e) =~= e);
    assert(dashed_of(e) =~= e);
    assert(snake_of(e) == e);
    assert(pascal_of(e) == e);
    assert(upper_of(snake_of(e)) =~= e);
    assert(dashed_of(snake_of(e)) =~= e);
    assert(dashed_of(screaming_snake_of(e)) =~= e);
}

/// Snake-case output never contains an ASCII uppercase letter.
proof fn lemma_snake_no_upper(s: Seq<char>)
    ensures
        forall|i: int|
            0 <= i < snake_of(s).len() ==> !is_ascii_upper(#[trigger] snake_of(s)[i]),
    decreases s.len(),
{
    if s.len() > 0 {
        lemma_snake_no_upper(s.drop_last());
        let pre = snake_of(s.drop_last());
        let c = s.last();
        let folded = if is_ascii_upper(c) && s.len() > 1 {
            seq!['_', to_lower_char(c)]
        } else {
            seq![to_lower_char(c)]
        };
        assert(snake_of(s) == pre + folded);
        assert forall|i: int| 0 <= i < snake_of(s).len() implies !is_ascii_upper(
            snake_of(s)[i],
        ) by {
            if i < pre.len() {
                assert(snake_of(s)[i] == pre[i]);
            } else {
                assert(snake_of(s)[i] == folded[i - pre.len()]);
            }
        }
    }
}

/// A string without ASCII uppercase letters is a fixpoint of snake-case
/// conversion.
proof fn lemma_snake_fixed(t: Seq<char>)
    requires
        forall|i: int| 0 <= i < t.len() ==> !is_ascii_upper(#[trigger] t[i]),
    ensures
        snake_of(t) == t,
    decreases t.len(),
{
    if t.len() > 0 {
        lemma_snake_fixed(t.drop_last());
        assert(snake_of(t) =~= t);
    }
}

/// Snake-case conversion is idempotent: applying the rule twice gives the
/// same result as applying it once, for every identifier.
pub proof fn lemma_snake_idempotent(s: Seq<char>)
    ensures
        snake_of(snake_of(s)) == snake_of(s),
        apply_rule_spec(apply_rule_spec(s, NamingRule::Snake), NamingRule::Snake)
            == apply_rule_spec(s, NamingRule::Snake),
{
    lemma_snake_no_upper(s);
    lemma_snake_fixed(snake_of(s));
}

/// Picks the final name for a field or variant: an explicit override wins
/// over an inherited rule, and with neither the identifier stays unchanged.
pub fn resolve_name(identifier: &str, explicit_override: Option<&str>, rule: Option<
    NamingRule,
>) -> (r: String)
    ensures
        explicit_override is Some ==> r@ == explicit_override->0@,
        explicit_override is None && rule is Some ==> r@ == apply_rule_spec(
            identifier@,
            rule->0,
        ),
        explicit_override is None && rule is None ==> r@ == identifier@,
{
    match explicit_override {
        Some(o) => o.to_owned(),
        None => match rule {
            Some(ru) => apply_rule(identifier, ru),
            None => identifier.to_owned(),
        },
    }
}

/// The rule that a rename directive string denotes, if any.
pub open spec fn parse_rule_spec(s: Seq<char>) -> Option<NamingRule> {
    if s == "lowercase"@ {
        Some(NamingRule::Lower)
    } else if s == "UPPERCASE"@ {
        Some(NamingRule::Upper)
    } else if s == "PascalCase"@ {
        Some(NamingRule::Pascal)
    } else if s == "camelCase"@ {
        Some(NamingRule::Camel)
    } else if s == "snake_case"@ {
        Some(NamingRule::Snake)
    } else if s == "SCREAMING_SNAKE_CASE"@ {
        Some(NamingRule::ScreamingSnake)
    } else if s == "kebab-case"@ {
        Some(NamingRule::Kebab)
    } else if s == "SCREAMING-KEBAB-CASE"@ {
        Some(NamingRule::ScreamingKebab)
    } else {
        None
    }
}

/// Parses a rename directive string into a naming rule.
pub fn parse_rule(directive: &str) -> (r: Option<NamingRule>)
    ensures
        r == parse_rule_spec(directive@),
{
    if str_eq(directive, "lowercase") {
        Some(NamingRule::Lower)
    } else if str_eq(directive, "UPPERCASE") {
        Some(NamingRule::Upper)
    } else if str_eq(directive, "PascalCase") {
        Some(NamingRule::Pascal)
    } else if str_eq(directive, "camelCase") {
        Some(NamingRule::Camel)
    } else if str_eq(directive, "snake_case") {
        Some(NamingRule::Snake)
    } else if str_eq(directive, "SCREAMING_SNAKE_CASE") {
        Some(NamingRule::ScreamingSnake)
    } else if str_eq(directive, "kebab-case") {
        Some(NamingRule::Kebab)
    } else if str_eq(directive, "SCREAMING-KEBAB-CASE") {
        Some(NamingRule::ScreamingKebab)
    } else {
        None
    }
}

/// What [`rename_field`] returns: the rule's transform when the directive
/// names a rule, the identifier unchanged otherwise.
pub open spec fn rename_field_spec(name: Seq<char>, directive: Seq<char>) -> Seq<char> {
    match parse_rule_spec(directive) {
        Some(rule) => apply_rule_spec(name, rule),
        None => name,
    }
}

/// Transforms a field or variant name under a rename directive string.
///
/// A directive that names no known rule falls back to the identity
/// transform: renaming stays total and never fails.
pub fn rename_field(name: &str, rename_rule: &str) -> (r: String)
    ensures
        r@ == rename_field_spec(name@, rename_rule@),
{
    match parse_rule(rename_rule) {
        Some(rule) => apply_rule(name, rule),
        None => name.to_owned(),
    }
}

} // verus!
