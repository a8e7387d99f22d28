//! The description text that marks an object a template could not carry
//! (`rhwp-template-placeholder:<kind>:<shape>:<description>`), and the text
//! shown in its place.

use crate::text::{push_char, push_str, string_of, trim_seq, trim_str};
use vstd::prelude::*;
use vstd::string::*;

verus! {

/// The prefix of a placeholder description.
pub open spec fn placeholder_prefix() -> Seq<char> {
    "rhwp-template-placeholder:"@
}

/// The text before the first `c` and the text after it, if `s` has a `c`.
pub open spec fn split_first(s: Seq<char>, c: char) -> Option<(Seq<char>, Seq<char>)>
    decreases s.len(),
{
    if s.len() == 0 {
        None
    } else if s[0] == c {
        Some((Seq::empty(), s.drop_first()))
    } else {
        match split_first(s.drop_first(), c) {
            Some((a, b)) => Some((seq![s[0]] + a, b)),
            None => None,
        }
    }
}

/// The description of a placeholder for an object of `object_kind` and
/// `shape_kind` with the given description.
pub open spec fn placeholder_description_spec(
    object_kind: Seq<char>,
    shape_kind: Seq<char>,
    description: Seq<char>,
) -> Seq<char> {
    placeholder_prefix() + object_kind + seq![':'] + shape_kind + seq![':'] + description
}

/// The description of a placeholder for an object.
pub fn object_placeholder_description(object_kind: &str, shape_kind: &str, description: &str) -> (r:
    String)
    ensures
        r@ == placeholder_description_spec(object_kind@, shape_kind@, description@),
{
    let mut out = string_of("rhwp-template-placeholder:");
    push_str(&mut out, object_kind);
    push_char(&mut out, ':');
    push_str(&mut out, shape_kind);
    push_char(&mut out, ':');
    push_str(&mut out, description);
    assert(out@ =~= placeholder_description_spec(object_kind@, shape_kind@, description@));
    out
}

/// What a placeholder description holds: after the prefix, the object kind
/// up to the first `:`, the shape kind up to the next `:`, and the rest as
/// the description (missing parts are empty). Any other text is no
/// placeholder description.
pub open spec fn parse_placeholder_spec(d: Seq<char>) -> Option<(Seq<char>, Seq<char>, Seq<char>)> {
    let p = placeholder_prefix();
    if d.len() < p.len() || d.subrange(0, p.len() as int) != p {
        None
    } else {
        let rest = d.subrange(p.len() as int, d.len() as int);
        match split_first(rest, ':') {
            None => Some((rest, Seq::empty(), Seq::empty())),
            Some((kind, after)) => match split_first(after, ':') {
                None => Some((kind, after, Seq::empty())),
                Some((shape, description)) => Some((kind, shape, description)),
            },
        }
    }
}

/// Splits `s[start..]` at its first `c`: the index of that `c`, if any.
fn find_char_from(s: &str, start: usize, c: char) -> (r: Option<usize>)
    requires
        start <= s@.len(),
    ensures
        match r {
            Some(i) => start <= i < s@.len() && split_first(
                s@.subrange(start as int, s@.len() as int),
                c,
            ) == Some(
                (
                    s@.subrange(start as int, i as int),
                    s@.subrange(i + 1, s@.len() as int),
                ),
            ),
            None => split_first(s@.subrange(start as int, s@.len() as int), c) is None,
        },
    decreases s@.len() - start,
{
    let n = s.unicode_len();
    if start == n {
        return None;
    }
    let ghost tail = s@.subrange(start as int, n as int);
    assert(tail.drop_first() =~= s@.subrange(start + 1, n as int));
    if s.get_char(start) == c {
        assert(s@.subrange(start as int, start as int) =~= Seq::<char>::empty());
        return Some(start);
    }
    match find_char_from(s, start + 1, c) {
        Some(i) => {
            assert(seq![tail[0]] + s@.subrange(start + 1, i as int) =~= s@.subrange(
                start as int,
                i as int,
            ));
            Some(i)
        },
        None => None,
    }
}

/// The object kind, shape kind and description of a placeholder
/// description; `None` for any other text.
pub fn parse_object_placeholder_description(description: &str) -> (r: Option<
    (String, String, String),
>)
    ensures
        match r {
            Some((kind, shape, desc)) => parse_placeholder_spec(description@) == Some(
                (kind@, shape@, desc@),
            ),
            None => parse_placeholder_spec(description@) is None,
        },
{
    let prefix = "rhwp-template-placeholder:";
    proof {
        reveal_strlit("rhwp-template-placeholder:");
    }
    let p = prefix.unicode_len();
    if !crate::text::str_starts_with(description, prefix) {
        return None;
    }
    let n = description.unicode_len();
    let ghost rest = description@.subrange(p as int, n as int);
    match find_char_from(description, p, ':') {
        None => Some((string_of(description.substring_char(p, n)), String::new(), String::new())),
        Some(i) => {
            let kind = string_of(description.substring_char(p, i));
            assert(description@.subrange(i + 1, n as int) =~= description@.subrange(i + 1, n as int));
            match find_char_from(description, i + 1, ':') {
                None => Some((kind, string_of(description.substring_char(i + 1, n)), String::new())),
                Some(j) => Some(
                    (
                        kind,
                        string_of(description.substring_char(i + 1, j)),
                        string_of(description.substring_char(j + 1, n)),
                    ),
                ),
            }
        },
    }
}

/// Text without a `:`.
pub open spec fn no_colon(s: Seq<char>) -> bool {
    forall|i: int| 0 <= i < s.len() ==> s[i] != ':'
}

proof fn lemma_split_first_after_plain(a: Seq<char>, rest: Seq<char>)
    requires
        no_colon(a),
    ensures
        split_first(a + seq![':'] + rest, ':') == Some((a, rest)),
    decreases a.len(),
{
    let s = a + seq![':'] + rest;
    if a.len() == 0 {
        assert(s[0] == ':');
        assert(s.drop_first() =~= rest);
    } else {
        assert(s.drop_first() =~= a.drop_first() + seq![':'] + rest);
        lemma_split_first_after_plain(a.drop_first(), rest);
        assert(seq![a[0]] + a.drop_first() =~= a);
    }
}

/// A placeholder description reads back as the kinds and description it
/// was made of, when neither kind holds a `:`.
pub proof fn lemma_placeholder_description_roundtrip(
    object_kind: Seq<char>,
    shape_kind: Seq<char>,
    description: Seq<char>,
)
    requires
        no_colon(object_kind),
        no_colon(shape_kind),
    ensures
        parse_placeholder_spec(placeholder_description_spec(object_kind, shape_kind, description))
            == Some((object_kind, shape_kind, description)),
{
    let d = placeholder_description_spec(object_kind, shape_kind, description);
    let p = placeholder_prefix();
    assert(d.subrange(0, p.len() as int) =~= p);
    let rest = d.subrange(p.len() as int, d.len() as int);
    assert(rest =~= object_kind + seq![':'] + (shape_kind + seq![':'] + description));
    lemma_split_first_after_plain(object_kind, shape_kind + seq![':'] + description);
    lemma_split_first_after_plain(shape_kind, description);
}

/// The text shown in place of an object a template could not carry.
pub open spec fn placeholder_text_spec(object_kind: Seq<char>, shape_kind: Seq<char>) -> Seq<char> {
    if trim_seq(shape_kind).len() == 0 {
        seq!['['] + object_kind + " placeholder]"@
    } else {
        seq!['['] + object_kind + seq![':'] + shape_kind + " placeholder]"@
    }
}

/// The text shown in place of an object a template could not carry:
/// `[<kind> placeholder]` or `[<kind>:<shape> placeholder]`.
pub fn default_object_placeholder_text(object_kind: &str, shape_kind: &str) -> (r: String)
    ensures
        r@ == placeholder_text_spec(object_kind@, shape_kind@),
{
    let mut out = string_of("[");
    proof {
        reveal_strlit("[");
    }
    push_str(&mut out, object_kind);
    if !trim_str(shape_kind).is_empty() {
        push_char(&mut out, ':');
        push_str(&mut out, shape_kind);
    }
    push_str(&mut out, " placeholder]");
    assert(out@ =~= placeholder_text_spec(object_kind@, shape_kind@));
    out
}

} // verus!
