//! Doc text assembly.
//!
//! A producer hands the model one doc line per documentation comment line.
//! The doc string stored on a node is those lines, each trimmed of leading
//! and trailing whitespace, joined with single newlines, in source order.

use vstd::prelude::*;

use crate::chars::push_char;

verus! {

/// The whitespace characters trimmed from doc lines.
pub open spec fn is_doc_space(c: char) -> bool {
    c == ' ' || c == '\t' || c == '\r' || c == '\n'
}

/// The number of whitespace characters at the start of `s`.
pub open spec fn leading_spaces(s: Seq<char>) -> int
    decreases s.len(),
{
    if s.len() == 0 {
        0
    } else if is_doc_space(s[0]) {
        1 + leading_spaces(s.drop_first())
    } else {
        0
    }
}

/// The number of whitespace characters at the end of `s`.
pub open spec fn trailing_spaces(s: Seq<char>) -> int
    decreases s.len(),
{
    if s.len() == 0 {
        0
    } else if is_doc_space(s.last()) {
        1 + trailing_spaces(s.drop_last())
    } else {
        0
    }
}

/// `s` without its leading and trailing whitespace.
pub open spec fn trim_of(s: Seq<char>) -> Seq<char> {
    let l = leading_spaces(s);
    let t = trailing_spaces(s);
    if l + t <= s.len() {
        s.subrange(l, s.len() - t)
    } else {
        Seq::empty()
    }
}

/// The doc lines, each trimmed, joined with single newlines.
pub open spec fn joined_docs(ls: Seq<Seq<char>>) -> Seq<char>
    decreases ls.len(),
{
    if ls.len() == 0 {
        Seq::empty()
    } else if ls.len() == 1 {
        trim_of(ls[0])
    } else {
        joined_docs(ls.drop_last()) + "\n"@ + trim_of(ls.last())
    }
}

proof fn lemma_leading_spaces_at(s: Seq<char>, k: int)
    requires
        0 <= k <= s.len(),
        forall|j: int| 0 <= j < k ==> is_doc_space(#[trigger] s[j]),
        k < s.len() ==> !is_doc_space(s[k]),
    ensures
        leading_spaces(s) == k,
    decreases s.len(),
{
    if s.len() > 0 && k > 0 {
        lemma_leading_spaces_at(s.drop_first(), k - 1);
    }
}

proof fn lemma_trailing_spaces_at(s: Seq<char>, k: int)
    requires
        0 <= k <= s.len(),
        forall|j: int| s.len() - k <= j < s.len() ==> is_doc_space(#[trigger] s[j]),
        k < s.len() ==> !is_doc_space(s[s.len() - k - 1]),
    ensures
        trailing_spaces(s) == k,
    decreases s.len(),
{
    if s.len() > 0 && k > 0 {
        lemma_trailing_spaces_at(s.drop_last(), k - 1);
    }
}

fn is_space_char(c: char) -> (r: bool)
    ensures
        r == is_doc_space(c),
{
    c == ' ' || c == '\t' || c == '\r' || c == '\n'
}

/// One doc line with its leading and trailing whitespace removed.
pub fn trim_doc_line(s: &str) -> (r: String)
    ensures
        r@ == trim_of(s@),
{
    let n = s.unicode_len();
    let mut start: usize = 0;
    while start < n && is_space_char(s.get_char(start))
        invariant
            start <= n,
            n == s@.len(),
            forall|j: int| 0 <= j < start ==> is_doc_space(#[trigger] s@[j]),
        decreases n - start,
    {
        start += 1;
    }
    if start == n {
        proof {
            lemma_leading_spaces_at(s@, n as int);
            lemma_trailing_spaces_at(s@, n as int);
            assert(trim_of(s@) =~= Seq::<char>::empty());
        }
        String::new()
    } else {
        let mut end: usize = n;
        while end > start && is_space_char(s.get_char(end - 1))
            invariant
                start <= end <= n,
                n == s@.len(),
                start < n,
                !is_doc_space(s@[start as int]),
                forall|j: int| end <= j < n ==> is_doc_space(#[trigger] s@[j]),
            decreases end,
        {
            end -= 1;
        }
        proof {
            lemma_leading_spaces_at(s@, start as int);
            lemma_trailing_spaces_at(s@, n - end);
        }
        let r = s.substring_char(start, end);
        r.to_owned()
    }
}

/// Joins doc comment lines into the doc string stored on a node: each
/// line trimmed of leading and trailing whitespace, joined with single
/// newlines, in source order. No lines give the empty string.
pub fn join_doc_lines(lines: &Vec<String>) -> (r: String)
    ensures
        r@ == joined_docs(lines.deep_view()),
{
    let ghost dv = lines.deep_view();
    let mut r = String::new();
    let mut i: usize = 0;
    while i < lines.len()
        invariant
            i <= lines@.len(),
            dv == lines.deep_view(),
            dv.len() == lines@.len(),
            r@ == joined_docs(dv.subrange(0, i as int)),
        decreases lines@.len() - i,
    {
        if i > 0 {
            push_char(&mut r, '\n');
        }
        let t = trim_doc_line(lines[i].as_str());
        r.append(t.as_str());
        proof {
            let cur = dv.subrange(0, i + 1);
            assert(cur.drop_last() =~= dv.subrange(0, i as int));
            assert(cur.last() == dv[i as int]);
            assert(dv[i as int] == lines@[i as int]@);
            if i == 0 {
                assert(r@ =~= joined_docs(cur));
            } else {
                reveal_strlit("\n");
                assert(r@ =~= joined_docs(cur));
            }
        }
        i += 1;
    }
    proof {
        assert(dv.subrange(0, dv.len() as int) =~= dv);
    }
    r
}

} // verus!
