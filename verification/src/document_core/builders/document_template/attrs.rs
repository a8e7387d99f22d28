//! XML attributes of drawing-style effect children: a map from attribute
//! name to value text, kept as a list of entries in strictly increasing
//! name order (the order in which a `String`-keyed `BTreeMap` walks them).

use crate::document_core::builders::document_template::objects::{
    drawing_style_safe_xml_name, drawing_style_xml_attr_escape, safe_xml_name_spec,
    xml_attr_escape_spec,
};
use crate::json_value::{
    json_get_spec, json_scalar_string, lemma_members_get_append, lemma_members_get_single,
    members_get, members_unique, scalar_text, JsonValue,
};
use crate::text::{push_str, str_eq, string_of};
use vstd::prelude::*;
use vstd::string::*;

verus! {

/// Code-point order of texts. It is the order of `String`'s `Ord`, which
/// compares the UTF-8 bytes: UTF-8 keeps code-point order.
pub open spec fn text_less(a: Seq<char>, b: Seq<char>) -> bool
    decreases a.len(),
{
    if a.len() == 0 {
        b.len() > 0
    } else if b.len() == 0 {
        false
    } else if a[0] == b[0] {
        text_less(a.drop_first(), b.drop_first())
    } else {
        (a[0] as int) < (b[0] as int)
    }
}

/// No text comes before itself.
pub proof fn lemma_text_less_irreflexive(a: Seq<char>)
    ensures
        !text_less(a, a),
    decreases a.len(),
{
    if a.len() > 0 {
        lemma_text_less_irreflexive(a.drop_first());
    }
}

/// The order is transitive.
pub proof fn lemma_text_less_transitive(a: Seq<char>, b: Seq<char>, c: Seq<char>)
    requires
        text_less(a, b),
        text_less(b, c),
    ensures
        text_less(a, c),
    decreases a.len(),
{
    if a.len() > 0 && b.len() > 0 && c.len() > 0 && a[0] == b[0] && b[0] == c[0] {
        lemma_text_less_transitive(a.drop_first(), b.drop_first(), c.drop_first());
    }
}

/// Of two different texts, one comes first.
pub proof fn lemma_text_less_total(a: Seq<char>, b: Seq<char>)
    ensures
        a == b || text_less(a, b) || text_less(b, a),
    decreases a.len(),
{
    if a.len() > 0 && b.len() > 0 {
        if a[0] == b[0] {
            lemma_text_less_total(a.drop_first(), b.drop_first());
            if a.drop_first() == b.drop_first() {
                assert(a =~= seq![a[0]] + a.drop_first());
                assert(b =~= seq![b[0]] + b.drop_first());
            }
        }
    } else if a.len() == 0 && b.len() == 0 {
        assert(a =~= b);
    }
}

/// Whether `a` comes before `b` in code-point order.
pub fn text_less_exec(a: &str, b: &str) -> (r: bool)
    ensures
        r == text_less(a@, b@),
{
    let alen = a.unicode_len();
    let blen = b.unicode_len();
    let mut i: usize = 0;
    assert(a@.skip(0) =~= a@);
    assert(b@.skip(0) =~= b@);
    while i < alen && i < blen
        invariant
            alen == a@.len(),
            blen == b@.len(),
            i <= alen,
            i <= blen,
            text_less(a@, b@) == text_less(a@.skip(i as int), b@.skip(i as int)),
        decreases alen - i,
    {
        let ca = a.get_char(i);
        let cb = b.get_char(i);
        if ca != cb {
            return ca < cb;
        }
        assert(a@.skip(i as int).drop_first() =~= a@.skip(i + 1));
        assert(b@.skip(i as int).drop_first() =~= b@.skip(i + 1));
        i = i + 1;
    }
    i == alen && i < blen
}

/// The value under `key` in a list of entries (the first that has it).
pub open spec fn entries_lookup(entries: Seq<(String, String)>, key: Seq<char>) -> Option<Seq<char>>
    decreases entries.len(),
{
    if entries.len() == 0 {
        None
    } else if entries[0].0@ == key {
        Some(entries[0].1@)
    } else {
        entries_lookup(entries.drop_first(), key)
    }
}

/// Entry names strictly increase.
pub open spec fn entries_sorted(entries: Seq<(String, String)>) -> bool {
    forall|i: int, j: int| 0 <= i < j < entries.len() ==> text_less(#[trigger] entries[i].0@, #[trigger] entries[j].0@)
}

pub(crate) proof fn lemma_lookup_append(a: Seq<(String, String)>, b: Seq<(String, String)>, key: Seq<char>)
    ensures
        entries_lookup(a + b, key) == match entries_lookup(a, key) {
            Some(v) => Some(v),
            None => entries_lookup(b, key),
        },
    decreases a.len(),
{
    if a.len() > 0 {
        assert((a + b).drop_first() =~= a.drop_first() + b);
        lemma_lookup_append(a.drop_first(), b, key);
    } else {
        assert(a + b =~= b);
    }
}

pub(crate) proof fn lemma_lookup_single(x: (String, String), key: Seq<char>)
    ensures
        entries_lookup(seq![x], key) == if x.0@ == key {
            Some(x.1@)
        } else {
            None
        },
{
    assert(seq![x].drop_first() =~= Seq::<(String, String)>::empty());
    assert(entries_lookup(Seq::<(String, String)>::empty(), key) is None);
}

pub(crate) proof fn lemma_lookup_absent(a: Seq<(String, String)>, key: Seq<char>)
    requires
        forall|i: int| 0 <= i < a.len() ==> (#[trigger] a[i]).0@ != key,
    ensures
        entries_lookup(a, key) is None,
    decreases a.len(),
{
    if a.len() > 0 {
        assert forall|i: int| 0 <= i < a.drop_first().len() implies (#[trigger] a.drop_first()[i]).0@ != key by {
            assert(a.drop_first()[i] == a[i + 1]);
        }
        lemma_lookup_absent(a.drop_first(), key);
    }
}

/// Attribute names and values, each name once, in name order: a sorted
/// list of text pairs, so that what is written comes out in name order and
/// lookups and inserts are stated over texts (see `wf` and the view).
#[derive(Debug, Clone, PartialEq, Default)]
pub struct XmlAttrs {
    pub entries: Vec<(String, String)>,
}

impl View for XmlAttrs {
    type V = Map<Seq<char>, Seq<char>>;

    /// The attributes as a map from name to value.
    open spec fn view(&self) -> Map<Seq<char>, Seq<char>> {
        Map::new(|k: Seq<char>| self.lookup(k) is Some, |k: Seq<char>| self.lookup(k)->0)
    }
}

impl XmlAttrs {
    /// Names strictly increase (so none occurs twice).
    pub open spec fn wf(&self) -> bool {
        entries_sorted(self.entries@)
    }

    /// The value under a name.
    pub open spec fn lookup(&self, key: Seq<char>) -> Option<Seq<char>> {
        entries_lookup(self.entries@, key)
    }

    /// No attributes.
    pub fn new() -> (r: XmlAttrs)
        ensures
            r.wf(),
            forall|k: Seq<char>| r.lookup(k) is None,
            r@ == Map::<Seq<char>, Seq<char>>::empty(),
            r.entries@.len() == 0,
    {
        let r = XmlAttrs { entries: Vec::new() };
        assert(r@ =~= Map::<Seq<char>, Seq<char>>::empty());
        r
    }

    /// Whether a name has a value.
    pub fn contains_key(&self, key: &str) -> (r: bool)
        ensures
            r == self@.dom().contains(key@),
    {
        let mut i: usize = 0;
        assert(self.entries@.subrange(0, self.entries@.len() as int) =~= self.entries@);
        while i < self.entries.len()
            invariant
                i <= self.entries@.len(),
                entries_lookup(self.entries@, key@) == entries_lookup(self.entries@.subrange(i as int, self.entries@.len() as int), key@),
            decreases self.entries@.len() - i,
        {
            let ghost rest = self.entries@.subrange(i as int, self.entries@.len() as int);
            assert(rest[0] == self.entries@[i as int]);
            assert(rest.drop_first() =~= self.entries@.subrange(i + 1, self.entries@.len() as int));
            if str_eq(self.entries[i].0.as_str(), key) {
                return true;
            }
            i = i + 1;
        }
        false
    }

    /// Sets the value of a name, in its place in name order.
    pub fn insert(&mut self, key: String, value: String)
        requires
            old(self).wf(),
        ensures
            final(self).wf(),
            forall|k: Seq<char>| #[trigger] final(self).lookup(k) == if k == key@ {
                Some(value@)
            } else {
                old(self).lookup(k)
            },
            final(self)@ == old(self)@.insert(key@, value@),
    {
        self.insert_entry(key, value);
        assert(self@ =~= old(self)@.insert(key@, value@));
    }

    fn insert_entry(&mut self, key: String, value: String)
        requires
            old(self).wf(),
        ensures
            final(self).wf(),
            forall|k: Seq<char>| #[trigger] final(self).lookup(k) == if k == key@ {
                Some(value@)
            } else {
                old(self).lookup(k)
            },
    {
        let ghost old_entries = self.entries@;
        let mut i: usize = 0;
        while i < self.entries.len() && text_less_exec(self.entries[i].0.as_str(), key.as_str())
            invariant
                self.entries@ == old_entries,
                i <= old_entries.len(),
                forall|j: int| 0 <= j < i ==> text_less(#[trigger] old_entries[j].0@, key@),
            decreases old_entries.len() - i,
        {
            i = i + 1;
        }
        let ghost before = old_entries.subrange(0, i as int);
        proof {
            assert forall|j: int| 0 <= j < before.len() implies (#[trigger] before[j]).0@ != key@ by {
                assert(before[j] == old_entries[j]);
                lemma_text_less_irreflexive(key@);
            }
            lemma_lookup_absent(before, key@);
        }
        if i < self.entries.len() && crate::text::str_eq(self.entries[i].0.as_str(), key.as_str()) {
            let ghost after = old_entries.subrange(i + 1, old_entries.len() as int);
            proof {
                assert(old_entries =~= before + (seq![old_entries[i as int]] + after));
            }
            self.entries.set(i, (key, value));
            proof {
                let n = self.entries@;
                assert(n =~= before + (seq![n[i as int]] + after));
                assert forall|k: Seq<char>| #[trigger] entries_lookup(n, k) == if k == key@ {
                    Some(value@)
                } else {
                    entries_lookup(old_entries, k)
                } by {
                    lemma_lookup_append(before, seq![n[i as int]] + after, k);
                    lemma_lookup_append(seq![n[i as int]], after, k);
                    lemma_lookup_append(before, seq![old_entries[i as int]] + after, k);
                    lemma_lookup_append(seq![old_entries[i as int]], after, k);
                    lemma_lookup_single(n[i as int], k);
                    lemma_lookup_single(old_entries[i as int], k);
                }
                assert forall|p: int, q: int| 0 <= p < q < n.len() implies text_less(#[trigger] n[p].0@, #[trigger] n[q].0@) by {
                    assert(old_entries[p].0@ == n[p].0@);
                    assert(old_entries[q].0@ == n[q].0@);
                }
            }
        } else {
            let ghost rest = old_entries.subrange(i as int, old_entries.len() as int);
            proof {
                assert(old_entries =~= before + rest);
                if i < old_entries.len() {
                    lemma_text_less_total(old_entries[i as int].0@, key@);
                }
            }
            self.entries.insert(i, (key, value));
            proof {
                let n = self.entries@;
                assert(n =~= before + (seq![n[i as int]] + rest));
                assert forall|k: Seq<char>| #[trigger] entries_lookup(n, k) == if k == key@ {
                    Some(value@)
                } else {
                    entries_lookup(old_entries, k)
                } by {
                    lemma_lookup_append(before, seq![n[i as int]] + rest, k);
                    lemma_lookup_append(seq![n[i as int]], rest, k);
                    lemma_lookup_append(before, rest, k);
                    lemma_lookup_single(n[i as int], k);
                }
                assert forall|p: int, q: int| 0 <= p < q < n.len() implies text_less(#[trigger] n[p].0@, #[trigger] n[q].0@) by {
                    if q < i {
                        assert(n[p] == old_entries[p] && n[q] == old_entries[q]);
                    } else if q == i {
                        assert(n[p] == old_entries[p]);
                    } else if p == i {
                        assert(n[q] == old_entries[q - 1]);
                        if q - 1 > i {
                            lemma_text_less_transitive(key@, old_entries[i as int].0@, old_entries[q - 1].0@);
                        }
                    } else if p < i {
                        assert(n[p] == old_entries[p] && n[q] == old_entries[q - 1]);
                    } else {
                        assert(n[p] == old_entries[p - 1] && n[q] == old_entries[q - 1]);
                    }
                }
            }
        }
    }
}

// ---------------------------------------------------------------------------
// Attributes from JSON
// ---------------------------------------------------------------------------

/// The attributes after setting, in order, each member of `members` whose
/// name is not in `skip`, is a safe XML name and has a scalar value (its
/// text), starting from `base`.
pub open spec fn fold_attrs(
    base: Map<Seq<char>, Seq<char>>,
    members: Seq<(String, JsonValue)>,
    skip: Seq<Seq<char>>,
) -> Map<Seq<char>, Seq<char>>
    decreases members.len(),
{
    if members.len() == 0 {
        base
    } else {
        let m = fold_attrs(base, members.drop_last(), skip);
        let (k, v) = members.last();
        if !skip.contains(k@) && safe_xml_name_spec(k@) && scalar_text(v) is Some {
            m.insert(k@, scalar_text(v)->0)
        } else {
            m
        }
    }
}

/// The value under a key of a map, if it has one.
pub open spec fn map_get(m: Map<Seq<char>, Seq<char>>, k: Seq<char>) -> Option<Seq<char>> {
    if m.dom().contains(k) {
        Some(m[k])
    } else {
        None
    }
}

/// When no name occurs twice among the members, each attribute that the
/// fold sets is the text of the member of that name, if that member is kept.
pub proof fn lemma_fold_attrs_unique(
    base: Map<Seq<char>, Seq<char>>,
    members: Seq<(String, JsonValue)>,
    skip: Seq<Seq<char>>,
    k: Seq<char>,
)
    requires
        members_unique(members),
    ensures
        map_get(fold_attrs(base, members, skip), k) == match members_get(members, k) {
            Some(v) => if !skip.contains(k) && safe_xml_name_spec(k) && scalar_text(v) is Some {
                scalar_text(v)
            } else {
                map_get(base, k)
            },
            None => map_get(base, k),
        },
    decreases members.len(),
{
    if members.len() > 0 {
        let pre = members.drop_last();
        let last = members.last();
        assert(members =~= pre + seq![last]);
        assert(members_unique(pre)) by {
            assert forall|i: int, j: int| 0 <= i < j < pre.len() implies (#[trigger] pre[i]).0@ != (#[trigger] pre[j]).0@ by {
                assert(pre[i] == members[i] && pre[j] == members[j]);
            }
        }
        lemma_fold_attrs_unique(base, pre, skip, k);
        lemma_members_get_append(pre, seq![last], k);
        lemma_members_get_single(last, k);
        if last.0@ == k {
            assert forall|i: int| 0 <= i < pre.len() implies (#[trigger] pre[i]).0@ != k by {
                assert(pre[i] == members[i]);
                assert(members[members.len() - 1] == last);
            }
            lemma_members_absent(pre, k);
        }
    }
}

proof fn lemma_members_absent(a: Seq<(String, JsonValue)>, key: Seq<char>)
    requires
        forall|i: int| 0 <= i < a.len() ==> (#[trigger] a[i]).0@ != key,
    ensures
        members_get(a, key) is None,
    decreases a.len(),
{
    if a.len() > 0 {
        assert forall|i: int| 0 <= i < a.drop_first().len() implies (#[trigger] a.drop_first()[i]).0@ != key by {
            assert(a.drop_first()[i] == a[i + 1]);
        }
        lemma_members_absent(a.drop_first(), key);
    }
}

/// The XML attributes a JSON object gives: first the members of its
/// `attrs` object, then its own members other than `attrs` and those named
/// in `skip`; a later name overrides an earlier one.
pub open spec fn xml_attr_map_spec(value: JsonValue, skip: Seq<Seq<char>>) -> Map<Seq<char>, Seq<char>> {
    let nested = match json_get_spec(value, "attrs"@) {
        Some(JsonValue::Object(m)) => fold_attrs(Map::empty(), m@, Seq::empty()),
        _ => Map::empty(),
    };
    match value {
        JsonValue::Object(m) => fold_attrs(nested, m@, seq!["attrs"@] + skip),
        _ => nested,
    }
}

/// Whether `key` is one of `keys`.
fn key_listed(key: &str, keys: &[&str]) -> (r: bool)
    ensures
        r == keys@.map_values(|s: &str| s@).contains(key@),
{
    let ghost view = keys@.map_values(|s: &str| s@);
    let mut i: usize = 0;
    while i < keys.len()
        invariant
            i <= keys@.len(),
            view == keys@.map_values(|s: &str| s@),
            forall|j: int| 0 <= j < i ==> view[j] != key@,
        decreases keys@.len() - i,
    {
        if str_eq(keys[i], key) {
            assert(view[i as int] == key@);
            return true;
        }
        i = i + 1;
    }
    false
}

/// Sets the attributes that `members` give (see `fold_attrs`); the skipped
/// names are `attrs` when `skip_attrs`, and `skip_keys`.
fn add_member_attrs(attrs: &mut XmlAttrs, members: &Vec<(String, JsonValue)>, skip_attrs: bool, skip_keys: &[&str])
    requires
        old(attrs).wf(),
    ensures
        final(attrs).wf(),
        final(attrs)@ == fold_attrs(
            old(attrs)@,
            members@,
            (if skip_attrs {
                seq!["attrs"@]
            } else {
                Seq::empty()
            }) + skip_keys@.map_values(|s: &str| s@),
        ),
{
    let ghost skip = (if skip_attrs {
        seq!["attrs"@]
    } else {
        Seq::<Seq<char>>::empty()
    }) + skip_keys@.map_values(|s: &str| s@);
    let ghost base = attrs@;
    let mut i: usize = 0;
    while i < members.len()
        invariant
            i <= members@.len(),
            attrs.wf(),
            skip == (if skip_attrs {
                seq!["attrs"@]
            } else {
                Seq::<Seq<char>>::empty()
            }) + skip_keys@.map_values(|s: &str| s@),
            attrs@ == fold_attrs(base, members@.subrange(0, i as int), skip),
        decreases members@.len() - i,
    {
        assert(members@.subrange(0, i + 1).drop_last() =~= members@.subrange(0, i as int));
        let key = members[i].0.as_str();
        let skipped = (skip_attrs && str_eq(key, "attrs")) || key_listed(key, skip_keys);
        proof {
            if skip_attrs {
                assert(skip[0] == "attrs"@);
            }
            assert(skip.contains(key@) <==> ((skip_attrs && key@ == "attrs"@) || skip_keys@.map_values(
                |s: &str| s@,
            ).contains(key@))) by {
                let kv = skip_keys@.map_values(|s: &str| s@);
                if skip_attrs {
                    assert(skip =~= seq!["attrs"@] + kv);
                    if kv.contains(key@) {
                        let j = choose|j: int| 0 <= j < kv.len() && kv[j] == key@;
                        assert(skip[j + 1] == key@);
                    }
                    if skip.contains(key@) {
                        let j = choose|j: int| 0 <= j < skip.len() && skip[j] == key@;
                        if j > 0 {
                            assert(kv[j - 1] == key@);
                        }
                    }
                } else {
                    assert(skip =~= kv);
                }
            }
        }
        if !skipped && drawing_style_safe_xml_name(key) {
            match json_scalar_string(&members[i].1) {
                Some(text) => {
                    attrs.insert(string_of(key), text);
                },
                None => {},
            }
        }
        i = i + 1;
    }
    assert(members@.subrange(0, members@.len() as int) =~= members@);
}

/// The XML attributes a JSON object gives (see `xml_attr_map_spec`).
pub fn drawing_style_xml_attr_map(value: &JsonValue, skip_keys: &[&str]) -> (r: XmlAttrs)
    ensures
        r.wf(),
        r@ == xml_attr_map_spec(*value, skip_keys@.map_values(|s: &str| s@)),
{
    let mut attrs = XmlAttrs::new();
    match value.get("attrs") {
        Some(JsonValue::Object(members)) => {
            let none: [&str; 0] = [];
            add_member_attrs(&mut attrs, members, false, &none);
            assert(Seq::<Seq<char>>::empty() + none@.map_values(|s: &str| s@) =~= Seq::<Seq<char>>::empty());
        },
        _ => {},
    }
    match value {
        JsonValue::Object(members) => {
            add_member_attrs(&mut attrs, members, true, skip_keys);
        },
        _ => {},
    }
    attrs
}

// ---------------------------------------------------------------------------
// Attribute text
// ---------------------------------------------------------------------------

/// The XML text of attribute entries, in their order: ` name="value"` each,
/// with the value escaped.
pub open spec fn entries_text(entries: Seq<(String, String)>) -> Seq<char>
    decreases entries.len(),
{
    if entries.len() == 0 {
        Seq::empty()
    } else {
        seq![' '] + entries[0].0@ + seq!['=', '"'] + xml_attr_escape_spec(entries[0].1@) + seq!['"']
            + entries_text(entries.drop_first())
    }
}

/// The XML text of an attribute map, its names in code-point order.
pub open spec fn attrs_text(m: Map<Seq<char>, Seq<char>>) -> Seq<char> {
    entries_text((choose|a: XmlAttrs| a.wf() && a@ == m).entries@)
}

/// The order is asymmetric.
pub proof fn lemma_text_less_asymmetric(a: Seq<char>, b: Seq<char>)
    requires
        text_less(a, b),
    ensures
        !text_less(b, a),
{
    if text_less(b, a) {
        lemma_text_less_transitive(a, b, a);
        lemma_text_less_irreflexive(a);
    }
}

proof fn lemma_lookup_some_index(s: Seq<(String, String)>, k: Seq<char>)
    requires
        entries_lookup(s, k) is Some,
    ensures
        exists|i: int| 0 <= i < s.len() && (#[trigger] s[i]).0@ == k,
    decreases s.len(),
{
    if s[0].0@ != k {
        lemma_lookup_some_index(s.drop_first(), k);
        let i = choose|i: int| 0 <= i < s.drop_first().len() && (#[trigger] s.drop_first()[i]).0@ == k;
        assert(s[i + 1] == s.drop_first()[i]);
    }
}

proof fn lemma_lookup_of_index(s: Seq<(String, String)>, i: int)
    requires
        entries_sorted(s),
        0 <= i < s.len(),
    ensures
        entries_lookup(s, s[i].0@) == Some(s[i].1@),
    decreases i,
{
    if i > 0 {
        assert(text_less(s[0].0@, s[i].0@));
        lemma_text_less_irreflexive(s[i].0@);
        assert(s.drop_first()[i - 1] == s[i]);
        assert(entries_sorted(s.drop_first())) by {
            assert forall|p: int, q: int| 0 <= p < q < s.drop_first().len() implies text_less(
                #[trigger] s.drop_first()[p].0@,
                #[trigger] s.drop_first()[q].0@,
            ) by {
                assert(s.drop_first()[p] == s[p + 1] && s.drop_first()[q] == s[q + 1]);
            }
        }
        lemma_lookup_of_index(s.drop_first(), i - 1);
    }
}

/// Entries as name and value texts, in their order.
pub open spec fn entries_view(entries: Seq<(String, String)>) -> Seq<(Seq<char>, Seq<char>)> {
    entries.map_values(|p: (String, String)| (p.0@, p.1@))
}

/// Two name-ordered entry lists that give the same value for every name
/// have the same entries, in the same order, and so the same text.
pub proof fn lemma_sorted_entries_text(s1: Seq<(String, String)>, s2: Seq<(String, String)>)
    requires
        entries_sorted(s1),
        entries_sorted(s2),
        forall|k: Seq<char>| #[trigger] entries_lookup(s1, k) == entries_lookup(s2, k),
    ensures
        entries_text(s1) == entries_text(s2),
        entries_view(s1) == entries_view(s2),
    decreases s1.len() + s2.len(),
{
    if s1.len() == 0 && s2.len() > 0 {
        lemma_lookup_of_index(s2, 0);
        assert(entries_lookup(s1, s2[0].0@) is None);
    } else if s1.len() > 0 && s2.len() == 0 {
        lemma_lookup_of_index(s1, 0);
        assert(entries_lookup(s2, s1[0].0@) is None);
    } else if s1.len() > 0 && s2.len() > 0 {
        let k1 = s1[0].0@;
        let k2 = s2[0].0@;
        lemma_lookup_of_index(s1, 0);
        lemma_lookup_of_index(s2, 0);
        assert(entries_lookup(s2, k1) is Some);
        assert(entries_lookup(s1, k2) is Some);
        lemma_lookup_some_index(s2, k1);
        lemma_lookup_some_index(s1, k2);
        let j = choose|j: int| 0 <= j < s2.len() && (#[trigger] s2[j]).0@ == k1;
        let i = choose|i: int| 0 <= i < s1.len() && (#[trigger] s1[i]).0@ == k2;
        if j > 0 && i > 0 {
            assert(text_less(k2, k1));
            assert(text_less(k1, k2));
            lemma_text_less_asymmetric(k1, k2);
        }
        assert(k1 == k2);
        assert(s1[0].1@ == s2[0].1@);
        let t1 = s1.drop_first();
        let t2 = s2.drop_first();
        assert(entries_sorted(t1)) by {
            assert forall|p: int, q: int| 0 <= p < q < t1.len() implies text_less(#[trigger] t1[p].0@, #[trigger] t1[q].0@) by {
                assert(t1[p] == s1[p + 1] && t1[q] == s1[q + 1]);
            }
        }
        assert(entries_sorted(t2)) by {
            assert forall|p: int, q: int| 0 <= p < q < t2.len() implies text_less(#[trigger] t2[p].0@, #[trigger] t2[q].0@) by {
                assert(t2[p] == s2[p + 1] && t2[q] == s2[q + 1]);
            }
        }
        assert forall|k: Seq<char>| #[trigger] entries_lookup(t1, k) == entries_lookup(t2, k) by {
            if k == k1 {
                assert forall|p: int| 0 <= p < t1.len() implies (#[trigger] t1[p]).0@ != k by {
                    assert(t1[p] == s1[p + 1]);
                    assert(text_less(k1, s1[p + 1].0@));
                    lemma_text_less_irreflexive(k1);
                }
                assert forall|p: int| 0 <= p < t2.len() implies (#[trigger] t2[p]).0@ != k by {
                    assert(t2[p] == s2[p + 1]);
                    assert(text_less(k2, s2[p + 1].0@));
                    lemma_text_less_irreflexive(k2);
                }
                lemma_lookup_absent(t1, k);
                lemma_lookup_absent(t2, k);
            } else {
                assert(entries_lookup(s1, k) == entries_lookup(s2, k));
            }
        }
        lemma_sorted_entries_text(t1, t2);
        assert(entries_view(s1) =~= seq![(k1, s1[0].1@)] + entries_view(t1));
        assert(entries_view(s2) =~= seq![(k2, s2[0].1@)] + entries_view(t2));
    } else {
        assert(entries_view(s1) =~= entries_view(s2));
    }
}

/// A well-formed attribute list is fixed by its map: two with the same map
/// have the same entries in the same order.
pub proof fn lemma_attrs_view_determines_entries(a: XmlAttrs, b: XmlAttrs)
    requires
        a.wf(),
        b.wf(),
        a@ == b@,
    ensures
        entries_view(a.entries@) == entries_view(b.entries@),
{
    assert forall|k: Seq<char>| #[trigger] entries_lookup(a.entries@, k) == entries_lookup(b.entries@, k) by {
        assert(a@.dom().contains(k) == b@.dom().contains(k));
        if a@.dom().contains(k) {
            assert(a@[k] == b@[k]);
        }
    }
    lemma_sorted_entries_text(a.entries@, b.entries@);
}

/// The text of a well-formed attribute list is the text of its map.
pub proof fn lemma_attrs_text(a: XmlAttrs)
    requires
        a.wf(),
    ensures
        attrs_text(a@) == entries_text(a.entries@),
{
    let c = choose|c: XmlAttrs| c.wf() && c@ == a@;
    assert(c.wf() && c@ == a@);
    assert forall|k: Seq<char>| #[trigger] entries_lookup(c.entries@, k) == entries_lookup(a.entries@, k) by {
        assert(c@.dom().contains(k) == a@.dom().contains(k));
        if a@.dom().contains(k) {
            assert(c@[k] == a@[k]);
        }
    }
    lemma_sorted_entries_text(c.entries@, a.entries@);
}

/// The XML text of attributes: ` name="value"` for each, in name order,
/// the values escaped.
pub fn drawing_style_xml_attrs_from_map(attrs: XmlAttrs) -> (r: String)
    ensures
        r@ == entries_text(attrs.entries@),
        attrs.wf() ==> r@ == attrs_text(attrs@),
{
    let mut out = String::new();
    let mut i: usize = 0;
    let n = attrs.entries.len();
    assert(attrs.entries@.subrange(0, n as int) =~= attrs.entries@);
    assert(out@ + entries_text(attrs.entries@) =~= entries_text(attrs.entries@));
    while i < n
        invariant
            n == attrs.entries@.len(),
            i <= n,
            out@ + entries_text(attrs.entries@.subrange(i as int, n as int)) == entries_text(attrs.entries@),
        decreases n - i,
    {
        let ghost rest = attrs.entries@.subrange(i as int, n as int);
        assert(rest[0] == attrs.entries@[i as int]);
        assert(rest.drop_first() =~= attrs.entries@.subrange(i + 1, n as int));
        let ghost before = out@;
        push_str(&mut out, " ");
        push_str(&mut out, attrs.entries[i].0.as_str());
        push_str(&mut out, "=\"");
        let escaped = drawing_style_xml_attr_escape(attrs.entries[i].1.as_str());
        push_str(&mut out, escaped.as_str());
        push_str(&mut out, "\"");
        proof {
            reveal_strlit(" ");
            reveal_strlit("=\"");
            reveal_strlit("\"");
            assert(out@ =~= before + (seq![' '] + rest[0].0@ + seq!['=', '"'] + xml_attr_escape_spec(rest[0].1@) + seq!['"']));
        }
        i = i + 1;
    }
    assert(attrs.entries@.subrange(n as int, n as int) =~= Seq::<(String, String)>::empty());
    proof {
        if attrs.wf() {
            lemma_attrs_text(attrs);
        }
    }
    out
}

/// The XML attribute text a JSON object gives (see `xml_attr_map_spec`).
pub fn drawing_style_xml_attrs(value: &JsonValue, skip_keys: &[&str]) -> (r: String)
    ensures
        r@ == attrs_text(xml_attr_map_spec(*value, skip_keys@.map_values(|s: &str| s@))),
{
    drawing_style_xml_attrs_from_map(drawing_style_xml_attr_map(value, skip_keys))
}

} // verus!
