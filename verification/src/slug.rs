//! The slug of a figure: the stable identifier derived from its display name.

use vstd::prelude::*;
use vstd::string::StrSliceExecFns;
use crate::text::{ascii_lower, push_char, to_ascii_lower};

verus! {

/// ASCII letters, ASCII digits and the underscore: the characters a slug is
/// made of before it is lower-cased.
pub open spec fn is_ident_char(c: char) -> bool {
    ('a' <= c && c <= 'z') || ('A' <= c && c <= 'Z') || ('0' <= c && c <= '9') || c == '_'
}

/// A space stands for an underscore; every other character for itself.
pub open spec fn unspace(c: char) -> char {
    if c == ' ' {
        '_'
    } else {
        c
    }
}

/// The slug of a name, in three steps: every space becomes an underscore;
/// then every character that is neither an ASCII letter, an ASCII digit nor
/// an underscore is removed; then what is left is put in lower case.
pub open spec fn slug_text(name: Seq<char>) -> Seq<char> {
    name.map_values(|c: char| unspace(c)).filter(|c: char| is_ident_char(c)).map_values(
        |c: char| ascii_lower(c),
    )
}

/// The slug read off the name character by character: a space counts as an
/// underscore, a character outside the slug alphabet is skipped, and every
/// other character is added in lower case.
pub open spec fn slug_scan(name: Seq<char>) -> Seq<char>
    decreases name.len(),
{
    if name.len() == 0 {
        Seq::empty()
    } else if is_ident_char(unspace(name.last())) {
        slug_scan(name.drop_last()).push(ascii_lower(unspace(name.last())))
    } else {
        slug_scan(name.drop_last())
    }
}

/// Reading the slug off the name character by character gives the same as
/// the three steps applied to the whole name.
pub proof fn lemma_slug_by_steps(name: Seq<char>)
    ensures
        slug_scan(name) == slug_text(name),
    decreases name.len(),
{
    let replace = |c: char| unspace(c);
    let keep = |c: char| is_ident_char(c);
    let lower = |c: char| ascii_lower(c);
    if name.len() == 0 {
        assert(name.map_values(replace) =~= Seq::<char>::empty());
        assert(Seq::<char>::empty().filter(keep) =~= Seq::<char>::empty()) by {
            reveal(Seq::filter);
        }
        assert(Seq::<char>::empty().map_values(lower) =~= Seq::<char>::empty());
    } else {
        let shorter = name.drop_last();
        let c = name.last();
        lemma_slug_by_steps(shorter);
        let replaced = shorter.map_values(replace);
        assert(name.map_values(replace) =~= replaced.push(unspace(c)));
        replaced.lemma_filter_push(unspace(c), keep);
        let kept = replaced.filter(keep);
        if is_ident_char(unspace(c)) {
            assert(kept.push(unspace(c)).map_values(lower) =~= kept.map_values(lower).push(
                ascii_lower(unspace(c)),
            ));
        }
    }
}

/// Whether every character of `s` may stand in a slug.
pub open spec fn is_slug(s: Seq<char>) -> bool {
    forall|i: int| 0 <= i < s.len() ==> is_slug_char(#[trigger] s[i])
}

/// Lower-case ASCII letters, ASCII digits and the underscore.
pub open spec fn is_slug_char(c: char) -> bool {
    ('a' <= c && c <= 'z') || ('0' <= c && c <= '9') || c == '_'
}

proof fn lemma_scan_shape(name: Seq<char>)
    ensures
        is_slug(slug_scan(name)),
        slug_scan(name).len() <= name.len(),
    decreases name.len(),
{
    if name.len() > 0 {
        lemma_scan_shape(name.drop_last());
    }
}

/// A slug holds nothing but lower-case ASCII letters, digits and
/// underscores, and is never longer than the name.
pub proof fn lemma_slug_shape(name: Seq<char>)
    ensures
        is_slug(slug_text(name)),
        slug_text(name).len() <= name.len(),
{
    lemma_slug_by_steps(name);
    lemma_scan_shape(name);
}

fn is_ident(c: char) -> (r: bool)
    ensures
        r == is_ident_char(c),
{
    ('a' <= c && c <= 'z') || ('A' <= c && c <= 'Z') || ('0' <= c && c <= '9') || c == '_'
}

/// Derives the slug of `name`.
pub fn derive_slug(name: &str) -> (slug: String)
    ensures
        slug@ == slug_text(name@),
{
    let n: usize = name.unicode_len();
    let mut out = String::new();
    let mut i: usize = 0;
    while i < n
        invariant
            n == name@.len(),
            i <= n,
            out@ == slug_scan(name@.take(i as int)),
        decreases n - i,
    {
        let c = name.get_char(i);
        let c = if c == ' ' { '_' } else { c };
        proof {
            assert(name@.take(i + 1).drop_last() =~= name@.take(i as int));
        }
        if is_ident(c) {
            push_char(&mut out, to_ascii_lower(c));
        }
        i += 1;
    }
    proof {
        assert(name@.take(n as int) =~= name@);
        lemma_slug_by_steps(name@);
    }
    out
}

} // verus!
