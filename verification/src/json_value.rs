//! JSON values as the template reader sees them, and the lenient field
//! readers it uses: numbers of each width, flags given as booleans, numbers
//! or words, strings, arrays, and colours in CSS notation.
//!
//! A number is kept as JSON keeps it: a non-negative integer, a negative
//! integer, or (for a fraction) its text.

use crate::document_core::builders::document_template::objects::{
    byte_at,
    color_ref_to_rgb_spec,
    color_ref_to_rgb_u32,
    effect_rgb_hex_spec,
    lemma_bytes_compose,
    opt_view,
    rgb_to_color_ref_spec,
    rgb_u32_to_color_ref,
};
use crate::model::EffectRgb;
use crate::text::{
    hex2_seq,
    lemma_parse_dec_seq,
    ascii_lower,
    char_to_ascii_lower,
    dec_seq,
    parse_hex_u32,
    parse_hex_u32_spec,
    parse_u32,
    parse_unsigned_spec,
    push_char,
    push_decimal,
    str_eq,
    str_starts_with,
    string_of,
    trim_seq,
    trim_str,
    seq_starts_with,
};
use vstd::prelude::*;
use vstd::string::*;

verus! {

/// A JSON number.
#[derive(Debug, Clone, PartialEq)]
pub enum JsonNumber {
    /// A non-negative integer.
    PosInt(u64),
    /// A negative integer.
    NegInt(i64),
    /// Any other number, by its text.
    Float(String),
}

/// A JSON value. An object keeps its members in order, each key once.
#[derive(Debug)]
pub enum JsonValue {
    Null,
    Bool(bool),
    Number(JsonNumber),
    String(String),
    Array(Vec<JsonValue>),
    Object(Vec<(String, JsonValue)>),
}

/// Whether two JSON values are the same value: the same kind, equal
/// scalars and texts, and arrays and objects with the same items (object
/// members with the same keys, in the same order).
pub open spec fn json_same(a: JsonValue, b: JsonValue) -> bool
    decreases a, 0nat,
{
    match a {
        JsonValue::Null => b is Null,
        JsonValue::Bool(x) => b == JsonValue::Bool(x),
        JsonValue::Number(x) => b == JsonValue::Number(x),
        JsonValue::String(x) => b matches JsonValue::String(y) && y@ == x@,
        JsonValue::Array(x) => b matches JsonValue::Array(y) && {
            proof {
                assert(decreases_to!(a => a->Array_0));
                assert(decreases_to!(a->Array_0 => x@));
            }
            items_same(x@, y@)
        },
        JsonValue::Object(x) => b matches JsonValue::Object(y) && {
            proof {
                assert(decreases_to!(a => a->Object_0));
                assert(decreases_to!(a->Object_0 => x@));
            }
            members_same(x@, y@)
        },
    }
}

/// Whether two lists of JSON values hold the same values, in order.
pub open spec fn items_same(x: Seq<JsonValue>, y: Seq<JsonValue>) -> bool
    decreases x, 1nat,
{
    if x.len() == 0 {
        y.len() == 0
    } else {
        proof {
            assert(decreases_to!(x => x[x.len() - 1]));
            assert(decreases_to!(x => x.subrange(0, x.len() - 1)));
        }
        &&& y.len() == x.len()
        &&& json_same(x[x.len() - 1], y[y.len() - 1])
        &&& items_same(x.subrange(0, x.len() - 1), y.subrange(0, y.len() - 1))
    }
}

/// Whether two object member lists have the same keys with the same
/// values, in order.
pub open spec fn members_same(x: Seq<(String, JsonValue)>, y: Seq<(String, JsonValue)>) -> bool
    decreases x, 1nat,
{
    if x.len() == 0 {
        y.len() == 0
    } else {
        proof {
            assert(decreases_to!(x => x[x.len() - 1]));
            assert(decreases_to!(x[x.len() - 1] => x[x.len() - 1].1));
            assert(decreases_to!(x => x.subrange(0, x.len() - 1)));
        }
        &&& y.len() == x.len()
        &&& y[y.len() - 1].0@ == x[x.len() - 1].0@
        &&& json_same(x[x.len() - 1].1, y[y.len() - 1].1)
        &&& members_same(x.subrange(0, x.len() - 1), y.subrange(0, y.len() - 1))
    }
}

/// A copy of a JSON value, item by item: the same value (see `json_same`).
pub fn json_clone(v: &JsonValue) -> (r: JsonValue)
    ensures
        json_same(*v, r),
    decreases v,
{
    match v {
        JsonValue::Null => JsonValue::Null,
        JsonValue::Bool(b) => JsonValue::Bool(*b),
        JsonValue::Number(n) => JsonValue::Number(number_clone(n)),
        JsonValue::String(s) => JsonValue::String(s.clone()),
        JsonValue::Array(items) => {
            let mut out: Vec<JsonValue> = Vec::new();
            let mut i: usize = 0;
            while i < items.len()
                invariant
                    i <= items@.len(),
                    *v == JsonValue::Array(*items),
                    items_same(items@.subrange(0, i as int), out@),
                decreases items@.len() - i,
            {
                proof {
                    assert(decreases_to!(*v => v->Array_0));
                    assert(decreases_to!(*items => items[i as int]));
                }
                let c = json_clone(&items[i]);
                let ghost before = out@;
                out.push(c);
                proof {
                    let next = items@.subrange(0, i + 1);
                    assert(next.subrange(0, next.len() - 1) =~= items@.subrange(0, i as int));
                    assert(out@.subrange(0, out@.len() - 1) =~= before);
                }
                i = i + 1;
            }
            assert(items@.subrange(0, i as int) =~= items@);
            JsonValue::Array(out)
        },
        JsonValue::Object(members) => {
            let mut out: Vec<(String, JsonValue)> = Vec::new();
            let mut i: usize = 0;
            while i < members.len()
                invariant
                    i <= members@.len(),
                    *v == JsonValue::Object(*members),
                    members_same(members@.subrange(0, i as int), out@),
                decreases members@.len() - i,
            {
                proof {
                    assert(decreases_to!(*v => v->Object_0));
                    assert(decreases_to!(*members => members[i as int]));
                    assert(decreases_to!(members[i as int] => members[i as int].1));
                }
                let c = json_clone(&members[i].1);
                let k = members[i].0.clone();
                let ghost before = out@;
                out.push((k, c));
                proof {
                    let next = members@.subrange(0, i + 1);
                    assert(next.subrange(0, next.len() - 1) =~= members@.subrange(0, i as int));
                    assert(out@.subrange(0, out@.len() - 1) =~= before);
                }
                i = i + 1;
            }
            assert(members@.subrange(0, i as int) =~= members@);
            JsonValue::Object(out)
        },
    }
}

/// A copy of a JSON number, equal to it.
fn number_clone(n: &JsonNumber) -> (r: JsonNumber)
    ensures
        r == *n,
{
    match n {
        JsonNumber::PosInt(u) => JsonNumber::PosInt(*u),
        JsonNumber::NegInt(i) => JsonNumber::NegInt(*i),
        JsonNumber::Float(t) => JsonNumber::Float(t.clone()),
    }
}

impl Clone for JsonValue {
    fn clone(&self) -> (r: Self)
        ensures
            json_same(*self, r),
    {
        json_clone(self)
    }
}

/// The member `key` of an object (the first with that key).
pub open spec fn members_get(members: Seq<(String, JsonValue)>, key: Seq<char>) -> Option<JsonValue>
    decreases members.len(),
{
    if members.len() == 0 {
        None
    } else if members[0].0@ == key {
        Some(members[0].1)
    } else {
        members_get(members.drop_first(), key)
    }
}

/// `value[key]` for an object; nothing for any other value.
pub open spec fn json_get_spec(value: JsonValue, key: Seq<char>) -> Option<JsonValue> {
    match value {
        JsonValue::Object(members) => members_get(members@, key),
        _ => None,
    }
}

/// `Value::as_u64`.
pub open spec fn as_u64_spec(value: JsonValue) -> Option<u64> {
    match value {
        JsonValue::Number(JsonNumber::PosInt(n)) => Some(n),
        _ => None,
    }
}

/// `Value::as_i64`.
pub open spec fn as_i64_spec(value: JsonValue) -> Option<i64> {
    match value {
        JsonValue::Number(JsonNumber::PosInt(n)) => if n <= i64::MAX {
            Some(n as i64)
        } else {
            None
        },
        JsonValue::Number(JsonNumber::NegInt(n)) => Some(n),
        _ => None,
    }
}

/// The member `key` of an object's members.
pub(crate) fn members_lookup<'a>(members: &'a Vec<(String, JsonValue)>, key: &str) -> (r: Option<&'a JsonValue>)
    ensures
        match r {
            Some(v) => members_get(members@, key@) == Some(*v),
            None => members_get(members@, key@) is None,
        },
{
    let mut i: usize = 0;
    assert(members@.subrange(0, members@.len() as int) =~= members@);
    while i < members.len()
        invariant
            i <= members@.len(),
            members_get(members@, key@) == members_get(members@.subrange(i as int, members@.len() as int), key@),
        decreases members@.len() - i,
    {
        let ghost rest = members@.subrange(i as int, members@.len() as int);
        assert(rest[0] == members@[i as int]);
        if str_eq(members[i].0.as_str(), key) {
            return Some(&members[i].1);
        }
        assert(rest.drop_first() =~= members@.subrange(i + 1, members@.len() as int));
        i = i + 1;
    }
    None
}

pub(crate) proof fn lemma_members_get_append(a: Seq<(String, JsonValue)>, b: Seq<(String, JsonValue)>, key: Seq<char>)
    ensures
        members_get(a + b, key) == match members_get(a, key) {
            Some(v) => Some(v),
            None => members_get(b, key),
        },
    decreases a.len(),
{
    if a.len() > 0 {
        assert((a + b).drop_first() =~= a.drop_first() + b);
        lemma_members_get_append(a.drop_first(), b, key);
    } else {
        assert(a + b =~= b);
    }
}

pub(crate) proof fn lemma_members_get_single(x: (String, JsonValue), key: Seq<char>)
    ensures
        members_get(seq![x], key) == if x.0@ == key {
            Some(x.1)
        } else {
            None
        },
{
    assert(seq![x].drop_first() =~= Seq::<(String, JsonValue)>::empty());
    assert(members_get(Seq::<(String, JsonValue)>::empty(), key) is None);
}

/// No key occurs twice among an object's members.
pub open spec fn members_unique(members: Seq<(String, JsonValue)>) -> bool {
    forall|i: int, j: int| 0 <= i < j < members.len() ==> (#[trigger] members[i]).0@ != (#[trigger] members[j]).0@
}

/// `Map::insert` on an object's members: the member under `key` takes
/// `value` in its place, or a new member is added at the end.
pub fn object_insert(members: &mut Vec<(String, JsonValue)>, key: String, value: JsonValue)
    ensures
        forall|k: Seq<char>| #[trigger] members_get(final(members)@, k) == if k == key@ {
            Some(value)
        } else {
            members_get(old(members)@, k)
        },
        members_unique(old(members)@) ==> members_unique(final(members)@),
{
    let ghost old_m = members@;
    let mut i: usize = 0;
    while i < members.len()
        invariant
            members@ == old_m,
            old_m == old(members)@,
            i <= old_m.len(),
            members_get(old_m.subrange(0, i as int), key@) is None,
            forall|j: int| 0 <= j < i ==> (#[trigger] old_m[j]).0@ != key@,
        decreases old_m.len() - i,
    {
        let ghost pre = old_m.subrange(0, i as int);
        proof {
            assert(old_m.subrange(0, i + 1) =~= pre + seq![old_m[i as int]]);
            lemma_members_get_append(pre, seq![old_m[i as int]], key@);
            lemma_members_get_single(old_m[i as int], key@);
        }
        if str_eq(members[i].0.as_str(), key.as_str()) {
            proof {
                let n = old_m.update(i as int, (key, value));
                assert forall|p: int, q: int| 0 <= p < q < n.len() && members_unique(old_m) implies (#[trigger] n[p]).0@ != (#[trigger] n[q]).0@ by {
                    assert(old_m[p].0@ != old_m[q].0@);
                }
            }
            let ghost after = old_m.subrange(i + 1, old_m.len() as int);
            proof {
                assert(old_m =~= pre + (seq![old_m[i as int]] + after));
            }
            members.set(i, (key, value));
            proof {
                let n = members@;
                assert(n =~= pre + (seq![n[i as int]] + after));
                assert forall|k: Seq<char>| #[trigger] members_get(n, k) == if k == key@ {
                    Some(value)
                } else {
                    members_get(old_m, k)
                } by {
                    lemma_members_get_append(pre, seq![n[i as int]] + after, k);
                    lemma_members_get_append(seq![n[i as int]], after, k);
                    lemma_members_get_append(pre, seq![old_m[i as int]] + after, k);
                    lemma_members_get_append(seq![old_m[i as int]], after, k);
                    lemma_members_get_single(n[i as int], k);
                    lemma_members_get_single(old_m[i as int], k);
                    if k == key@ {
                        assert(members_get(pre, k) is None);
                    }
                }
            }
            return;
        }
        i = i + 1;
    }
    assert(old_m.subrange(0, old_m.len() as int) =~= old_m);
    members.push((key, value));
    proof {
        let n = members@;
        assert forall|p: int, q: int| 0 <= p < q < n.len() && members_unique(old_m) implies (#[trigger] n[p]).0@ != (#[trigger] n[q]).0@ by {
            if q < old_m.len() {
                assert(old_m[p].0@ != old_m[q].0@);
            } else {
                assert(n[p] == old_m[p]);
            }
        }
        assert(n =~= old_m + seq![n[old_m.len() as int]]);
        assert forall|k: Seq<char>| #[trigger] members_get(n, k) == if k == key@ {
            Some(value)
        } else {
            members_get(old_m, k)
        } by {
            lemma_members_get_append(old_m, seq![n[old_m.len() as int]], k);
            lemma_members_get_single(n[old_m.len() as int], k);
        }
    }
}

/// A JSON number for a signed integer (as `serde_json` stores it: a
/// non-negative integer is kept unsigned).
pub fn json_from_i64(n: i64) -> (r: JsonValue)
    ensures
        r == (if n >= 0 {
            JsonValue::Number(JsonNumber::PosInt(n as u64))
        } else {
            JsonValue::Number(JsonNumber::NegInt(n))
        }),
        as_i64_spec(r) == Some(n),
{
    if n >= 0 {
        JsonValue::Number(JsonNumber::PosInt(n as u64))
    } else {
        JsonValue::Number(JsonNumber::NegInt(n))
    }
}

/// A JSON number for an unsigned integer.
pub fn json_from_u64(n: u64) -> (r: JsonValue)
    ensures
        r == JsonValue::Number(JsonNumber::PosInt(n)),
        as_u64_spec(r) == Some(n),
{
    JsonValue::Number(JsonNumber::PosInt(n))
}

impl JsonValue {
    /// `value[key]` for an object; nothing for any other value.
    pub fn get(&self, key: &str) -> (r: Option<&JsonValue>)
        ensures
            match r {
                Some(v) => json_get_spec(*self, key@) == Some(*v),
                None => json_get_spec(*self, key@) is None,
            },
    {
        match self {
            JsonValue::Object(members) => members_lookup(members, key),
            _ => None,
        }
    }

    /// `Value::as_u64`.
    pub fn as_u64(&self) -> (r: Option<u64>)
        ensures
            r == as_u64_spec(*self),
    {
        match self {
            JsonValue::Number(JsonNumber::PosInt(n)) => Some(*n),
            _ => None,
        }
    }

    /// `Value::as_i64`.
    pub fn as_i64(&self) -> (r: Option<i64>)
        ensures
            r == as_i64_spec(*self),
    {
        match self {
            JsonValue::Number(JsonNumber::PosInt(n)) => if *n <= 0x7FFF_FFFF_FFFF_FFFF {
                Some(*n as i64)
            } else {
                None
            },
            JsonValue::Number(JsonNumber::NegInt(n)) => Some(*n),
            _ => None,
        }
    }

    /// `Value::as_str`.
    pub fn as_str(&self) -> (r: Option<&str>)
        ensures
            match r {
                Some(s) => *self matches JsonValue::String(t) && t@ == s@,
                None => !(*self is String),
            },
    {
        match self {
            JsonValue::String(s) => Some(s.as_str()),
            _ => None,
        }
    }
}

// ---------------------------------------------------------------------------
// Numbers
// ---------------------------------------------------------------------------

/// An unsigned field: `value[key]` as a non-negative integer not above `max`.
pub open spec fn json_unsigned_spec(value: JsonValue, key: Seq<char>, max: int) -> Option<int> {
    match json_get_spec(value, key) {
        Some(v) => match as_u64_spec(v) {
            Some(n) => if n <= max {
                Some(n as int)
            } else {
                None
            },
            None => None,
        },
        None => None,
    }
}

/// A signed field: `value[key]` as an integer within `min..=max`.
pub open spec fn json_signed_spec(value: JsonValue, key: Seq<char>, min: int, max: int) -> Option<int> {
    match json_get_spec(value, key) {
        Some(v) => match as_i64_spec(v) {
            Some(n) => if min <= n <= max {
                Some(n as int)
            } else {
                None
            },
            None => None,
        },
        None => None,
    }
}

fn json_unsigned(value: &JsonValue, key: &str, max: u64) -> (r: Option<u64>)
    ensures
        match r {
            Some(n) => json_unsigned_spec(*value, key@, max as int) == Some(n as int),
            None => json_unsigned_spec(*value, key@, max as int) is None,
        },
{
    match value.get(key) {
        Some(v) => match v.as_u64() {
            Some(n) => if n <= max {
                Some(n)
            } else {
                None
            },
            None => None,
        },
        None => None,
    }
}

fn json_signed(value: &JsonValue, key: &str, min: i64, max: i64) -> (r: Option<i64>)
    ensures
        match r {
            Some(n) => json_signed_spec(*value, key@, min as int, max as int) == Some(n as int),
            None => json_signed_spec(*value, key@, min as int, max as int) is None,
        },
{
    match value.get(key) {
        Some(v) => match v.as_i64() {
            Some(n) => if min <= n && n <= max {
                Some(n)
            } else {
                None
            },
            None => None,
        },
        None => None,
    }
}

/// `value[key]` as a `u32`.
pub fn json_u32(value: &JsonValue, key: &str) -> (r: Option<u32>)
    ensures
        match r {
            Some(n) => json_unsigned_spec(*value, key@, u32::MAX as int) == Some(n as int),
            None => json_unsigned_spec(*value, key@, u32::MAX as int) is None,
        },
{
    match json_unsigned(value, key, 0xFFFF_FFFF) {
        Some(n) => Some(n as u32),
        None => None,
    }
}

/// `value[key]` as a `u16`.
pub fn json_u16(value: &JsonValue, key: &str) -> (r: Option<u16>)
    ensures
        match r {
            Some(n) => json_unsigned_spec(*value, key@, u16::MAX as int) == Some(n as int),
            None => json_unsigned_spec(*value, key@, u16::MAX as int) is None,
        },
{
    match json_unsigned(value, key, 0xFFFF) {
        Some(n) => Some(n as u16),
        None => None,
    }
}

/// `value[key]` as a `u8`.
pub fn json_u8(value: &JsonValue, key: &str) -> (r: Option<u8>)
    ensures
        match r {
            Some(n) => json_unsigned_spec(*value, key@, u8::MAX as int) == Some(n as int),
            None => json_unsigned_spec(*value, key@, u8::MAX as int) is None,
        },
{
    match json_unsigned(value, key, 0xFF) {
        Some(n) => Some(n as u8),
        None => None,
    }
}

/// `value[key]` as an `i32`.
pub fn json_i32(value: &JsonValue, key: &str) -> (r: Option<i32>)
    ensures
        match r {
            Some(n) => json_signed_spec(*value, key@, i32::MIN as int, i32::MAX as int) == Some(n as int),
            None => json_signed_spec(*value, key@, i32::MIN as int, i32::MAX as int) is None,
        },
{
    match json_signed(value, key, -0x8000_0000, 0x7FFF_FFFF) {
        Some(n) => Some(n as i32),
        None => None,
    }
}

/// `value[key]` as an `i16`.
pub fn json_i16(value: &JsonValue, key: &str) -> (r: Option<i16>)
    ensures
        match r {
            Some(n) => json_signed_spec(*value, key@, i16::MIN as int, i16::MAX as int) == Some(n as int),
            None => json_signed_spec(*value, key@, i16::MIN as int, i16::MAX as int) is None,
        },
{
    match json_signed(value, key, -0x8000, 0x7FFF) {
        Some(n) => Some(n as i16),
        None => None,
    }
}

/// `value[key]` as an `i8`.
pub fn json_i8(value: &JsonValue, key: &str) -> (r: Option<i8>)
    ensures
        match r {
            Some(n) => json_signed_spec(*value, key@, i8::MIN as int, i8::MAX as int) == Some(n as int),
            None => json_signed_spec(*value, key@, i8::MIN as int, i8::MAX as int) is None,
        },
{
    match json_signed(value, key, -0x80, 0x7F) {
        Some(n) => Some(n as i8),
        None => None,
    }
}

// ---------------------------------------------------------------------------
// Flags
// ---------------------------------------------------------------------------

/// A flag given as a word: `1`, `true`, `yes` or `0`, `false`, `no`, in any
/// ASCII case and with surrounding spaces.
pub open spec fn word_flag(s: Seq<char>) -> Option<bool> {
    let w = trim_seq(s).map_values(|c: char| ascii_lower(c));
    if w == "1"@ || w == "true"@ || w == "yes"@ {
        Some(true)
    } else if w == "0"@ || w == "false"@ || w == "no"@ {
        Some(false)
    } else {
        None
    }
}

/// A JSON value read as a flag: a boolean, an integer (non-zero is true),
/// or a flag word.
pub open spec fn json_flag(v: JsonValue) -> Option<bool> {
    match v {
        JsonValue::Bool(b) => Some(b),
        JsonValue::Number(_) => match as_i64_spec(v) {
            Some(n) => Some(n != 0),
            None => None,
        },
        JsonValue::String(s) => word_flag(s@),
        _ => None,
    }
}

pub open spec fn json_bool_spec(value: JsonValue, key: Seq<char>) -> Option<bool> {
    match json_get_spec(value, key) {
        Some(v) => json_flag(v),
        None => None,
    }
}

/// The ASCII lower-case form of a text.
fn ascii_lowercase(s: &str) -> (r: String)
    ensures
        r@ == s@.map_values(|c: char| ascii_lower(c)),
{
    let n = s.unicode_len();
    let mut out = String::new();
    let mut i: usize = 0;
    while i < n
        invariant
            n == s@.len(),
            i <= n,
            out@ == s@.subrange(0, i as int).map_values(|c: char| ascii_lower(c)),
        decreases n - i,
    {
        push_char(&mut out, char_to_ascii_lower(s.get_char(i)));
        i = i + 1;
        assert(out@ =~= s@.subrange(0, i as int).map_values(|c: char| ascii_lower(c)));
    }
    assert(s@.subrange(0, n as int) =~= s@);
    out
}

fn word_flag_exec(s: &str) -> (r: Option<bool>)
    ensures
        r == word_flag(s@),
{
    let w = ascii_lowercase(trim_str(s));
    let t = w.as_str();
    if str_eq(t, "1") || str_eq(t, "true") || str_eq(t, "yes") {
        Some(true)
    } else if str_eq(t, "0") || str_eq(t, "false") || str_eq(t, "no") {
        Some(false)
    } else {
        None
    }
}

fn json_flag_exec(v: &JsonValue) -> (r: Option<bool>)
    ensures
        r == json_flag(*v),
{
    match v {
        JsonValue::Bool(b) => Some(*b),
        JsonValue::Number(_) => match v.as_i64() {
            Some(n) => Some(n != 0),
            None => None,
        },
        JsonValue::String(s) => word_flag_exec(s.as_str()),
        _ => None,
    }
}

/// `value[key]` read as a flag.
pub fn json_bool(value: &JsonValue, key: &str) -> (r: Option<bool>)
    ensures
        r == json_bool_spec(*value, key@),
{
    match value.get(key) {
        Some(v) => json_flag_exec(v),
        None => None,
    }
}

// ---------------------------------------------------------------------------
// Fields under one of several names
// ---------------------------------------------------------------------------

/// The first of the keys whose field reads as a flag.
pub open spec fn json_bool_keys_spec(value: JsonValue, keys: Seq<&str>) -> Option<bool>
    decreases keys.len(),
{
    if keys.len() == 0 {
        None
    } else {
        match json_bool_spec(value, keys[0]@) {
            Some(x) => Some(x),
            None => json_bool_keys_spec(value, keys.drop_first()),
        }
    }
}

/// `value[raw_key]`, else the first of `aliases` whose field reads as a flag.
pub fn json_bool_alias(value: &JsonValue, raw_key: &str, aliases: &[&str]) -> (r: Option<bool>)
    ensures
        r == (match json_bool_spec(*value, raw_key@) {
            Some(x) => Some(x),
            None => json_bool_keys_spec(*value, aliases@),
        }),
{
    match json_bool(value, raw_key) {
        Some(x) => return Some(x),
        None => {},
    }
    let mut i: usize = 0;
    assert(aliases@.subrange(0, aliases@.len() as int) =~= aliases@);
    while i < aliases.len()
        invariant
            i <= aliases@.len(),
            json_bool_spec(*value, raw_key@) is None,
            json_bool_keys_spec(*value, aliases@) == json_bool_keys_spec(*value, aliases@.subrange(i as int, aliases@.len() as int)),
        decreases aliases@.len() - i,
    {
        let ghost rest = aliases@.subrange(i as int, aliases@.len() as int);
        assert(rest[0] == aliases@[i as int]);
        assert(rest.drop_first() =~= aliases@.subrange(i + 1, aliases@.len() as int));
        match json_bool(value, aliases[i]) {
            Some(x) => return Some(x),
            None => {},
        }
        i = i + 1;
    }
    None
}

/// The first of the keys whose field reads as a `u32`.
pub open spec fn json_u32_keys_spec(value: JsonValue, keys: Seq<&str>) -> Option<u32>
    decreases keys.len(),
{
    if keys.len() == 0 {
        None
    } else {
        match (match json_unsigned_spec(value, keys[0]@, u32::MAX as int) { Some(n) => Some(n as u32), None => None::<u32> }) {
            Some(x) => Some(x),
            None => json_u32_keys_spec(value, keys.drop_first()),
        }
    }
}

/// `value[raw_key]`, else the first of `aliases` whose field reads as a `u32`.
pub fn json_u32_alias(value: &JsonValue, raw_key: &str, aliases: &[&str]) -> (r: Option<u32>)
    ensures
        r == (match (match json_unsigned_spec(*value, raw_key@, u32::MAX as int) { Some(n) => Some(n as u32), None => None::<u32> }) {
            Some(x) => Some(x),
            None => json_u32_keys_spec(*value, aliases@),
        }),
{
    match json_u32(value, raw_key) {
        Some(x) => return Some(x),
        None => {},
    }
    let mut i: usize = 0;
    assert(aliases@.subrange(0, aliases@.len() as int) =~= aliases@);
    while i < aliases.len()
        invariant
            i <= aliases@.len(),
            (match json_unsigned_spec(*value, raw_key@, u32::MAX as int) { Some(n) => Some(n as u32), None => None::<u32> }) is None,
            json_u32_keys_spec(*value, aliases@) == json_u32_keys_spec(*value, aliases@.subrange(i as int, aliases@.len() as int)),
        decreases aliases@.len() - i,
    {
        let ghost rest = aliases@.subrange(i as int, aliases@.len() as int);
        assert(rest[0] == aliases@[i as int]);
        assert(rest.drop_first() =~= aliases@.subrange(i + 1, aliases@.len() as int));
        match json_u32(value, aliases[i]) {
            Some(x) => return Some(x),
            None => {},
        }
        i = i + 1;
    }
    None
}

/// The first of the keys whose field reads as a `u8`.
pub open spec fn json_u8_keys_spec(value: JsonValue, keys: Seq<&str>) -> Option<u8>
    decreases keys.len(),
{
    if keys.len() == 0 {
        None
    } else {
        match (match json_unsigned_spec(value, keys[0]@, u8::MAX as int) { Some(n) => Some(n as u8), None => None::<u8> }) {
            Some(x) => Some(x),
            None => json_u8_keys_spec(value, keys.drop_first()),
        }
    }
}

/// `value[raw_key]`, else the first of `aliases` whose field reads as a `u8`.
pub fn json_u8_alias(value: &JsonValue, raw_key: &str, aliases: &[&str]) -> (r: Option<u8>)
    ensures
        r == (match (match json_unsigned_spec(*value, raw_key@, u8::MAX as int) { Some(n) => Some(n as u8), None => None::<u8> }) {
            Some(x) => Some(x),
            None => json_u8_keys_spec(*value, aliases@),
        }),
{
    match json_u8(value, raw_key) {
        Some(x) => return Some(x),
        None => {},
    }
    let mut i: usize = 0;
    assert(aliases@.subrange(0, aliases@.len() as int) =~= aliases@);
    while i < aliases.len()
        invariant
            i <= aliases@.len(),
            (match json_unsigned_spec(*value, raw_key@, u8::MAX as int) { Some(n) => Some(n as u8), None => None::<u8> }) is None,
            json_u8_keys_spec(*value, aliases@) == json_u8_keys_spec(*value, aliases@.subrange(i as int, aliases@.len() as int)),
        decreases aliases@.len() - i,
    {
        let ghost rest = aliases@.subrange(i as int, aliases@.len() as int);
        assert(rest[0] == aliases@[i as int]);
        assert(rest.drop_first() =~= aliases@.subrange(i + 1, aliases@.len() as int));
        match json_u8(value, aliases[i]) {
            Some(x) => return Some(x),
            None => {},
        }
        i = i + 1;
    }
    None
}

/// The first of the keys whose field reads as an `i32`.
pub open spec fn json_i32_keys_spec(value: JsonValue, keys: Seq<&str>) -> Option<i32>
    decreases keys.len(),
{
    if keys.len() == 0 {
        None
    } else {
        match (match json_signed_spec(value, keys[0]@, i32::MIN as int, i32::MAX as int) { Some(n) => Some(n as i32), None => None::<i32> }) {
            Some(x) => Some(x),
            None => json_i32_keys_spec(value, keys.drop_first()),
        }
    }
}

/// `value[raw_key]`, else the first of `aliases` whose field reads as an `i32`.
pub fn json_i32_alias(value: &JsonValue, raw_key: &str, aliases: &[&str]) -> (r: Option<i32>)
    ensures
        r == (match (match json_signed_spec(*value, raw_key@, i32::MIN as int, i32::MAX as int) { Some(n) => Some(n as i32), None => None::<i32> }) {
            Some(x) => Some(x),
            None => json_i32_keys_spec(*value, aliases@),
        }),
{
    match json_i32(value, raw_key) {
        Some(x) => return Some(x),
        None => {},
    }
    let mut i: usize = 0;
    assert(aliases@.subrange(0, aliases@.len() as int) =~= aliases@);
    while i < aliases.len()
        invariant
            i <= aliases@.len(),
            (match json_signed_spec(*value, raw_key@, i32::MIN as int, i32::MAX as int) { Some(n) => Some(n as i32), None => None::<i32> }) is None,
            json_i32_keys_spec(*value, aliases@) == json_i32_keys_spec(*value, aliases@.subrange(i as int, aliases@.len() as int)),
        decreases aliases@.len() - i,
    {
        let ghost rest = aliases@.subrange(i as int, aliases@.len() as int);
        assert(rest[0] == aliases@[i as int]);
        assert(rest.drop_first() =~= aliases@.subrange(i + 1, aliases@.len() as int));
        match json_i32(value, aliases[i]) {
            Some(x) => return Some(x),
            None => {},
        }
        i = i + 1;
    }
    None
}

/// The first of the keys whose field reads as an `i16`.
pub open spec fn json_i16_keys_spec(value: JsonValue, keys: Seq<&str>) -> Option<i16>
    decreases keys.len(),
{
    if keys.len() == 0 {
        None
    } else {
        match (match json_signed_spec(value, keys[0]@, i16::MIN as int, i16::MAX as int) { Some(n) => Some(n as i16), None => None::<i16> }) {
            Some(x) => Some(x),
            None => json_i16_keys_spec(value, keys.drop_first()),
        }
    }
}

/// `value[raw_key]`, else the first of `aliases` whose field reads as an `i16`.
pub fn json_i16_alias(value: &JsonValue, raw_key: &str, aliases: &[&str]) -> (r: Option<i16>)
    ensures
        r == (match (match json_signed_spec(*value, raw_key@, i16::MIN as int, i16::MAX as int) { Some(n) => Some(n as i16), None => None::<i16> }) {
            Some(x) => Some(x),
            None => json_i16_keys_spec(*value, aliases@),
        }),
{
    match json_i16(value, raw_key) {
        Some(x) => return Some(x),
        None => {},
    }
    let mut i: usize = 0;
    assert(aliases@.subrange(0, aliases@.len() as int) =~= aliases@);
    while i < aliases.len()
        invariant
            i <= aliases@.len(),
            (match json_signed_spec(*value, raw_key@, i16::MIN as int, i16::MAX as int) { Some(n) => Some(n as i16), None => None::<i16> }) is None,
            json_i16_keys_spec(*value, aliases@) == json_i16_keys_spec(*value, aliases@.subrange(i as int, aliases@.len() as int)),
        decreases aliases@.len() - i,
    {
        let ghost rest = aliases@.subrange(i as int, aliases@.len() as int);
        assert(rest[0] == aliases@[i as int]);
        assert(rest.drop_first() =~= aliases@.subrange(i + 1, aliases@.len() as int));
        match json_i16(value, aliases[i]) {
            Some(x) => return Some(x),
            None => {},
        }
        i = i + 1;
    }
    None
}

// ---------------------------------------------------------------------------
// Arrays of numbers
// ---------------------------------------------------------------------------

/// The items of an array that are integers within `u32`, in order.
pub open spec fn u32_items(items: Seq<JsonValue>) -> Seq<u32>
    decreases items.len(),
{
    if items.len() == 0 {
        Seq::empty()
    } else {
        u32_items(items.drop_last()) + match as_u64_spec(items.last()) {
            Some(n) => if n <= u32::MAX {
                seq![n as u32]
            } else {
                Seq::empty()
            },
            None => Seq::empty(),
        }
    }
}

/// The items of an array that are integers within `i32`, in order.
pub open spec fn i32_items(items: Seq<JsonValue>) -> Seq<i32>
    decreases items.len(),
{
    if items.len() == 0 {
        Seq::empty()
    } else {
        i32_items(items.drop_last()) + match as_i64_spec(items.last()) {
            Some(n) => if i32::MIN <= n <= i32::MAX {
                seq![n as i32]
            } else {
                Seq::empty()
            },
            None => Seq::empty(),
        }
    }
}

/// `value[key]`, when it is an array: its `u32` items (the others skipped).
pub open spec fn json_u32_vec_spec(value: JsonValue, key: Seq<char>) -> Option<Seq<u32>> {
    match json_get_spec(value, key) {
        Some(JsonValue::Array(items)) => Some(u32_items(items@)),
        _ => None,
    }
}

/// `value[key]`, when it is an array: its `i32` items (the others skipped).
pub open spec fn json_i32_vec_spec(value: JsonValue, key: Seq<char>) -> Option<Seq<i32>> {
    match json_get_spec(value, key) {
        Some(JsonValue::Array(items)) => Some(i32_items(items@)),
        _ => None,
    }
}

fn u32_items_exec(items: &Vec<JsonValue>) -> (r: Vec<u32>)
    ensures
        r@ == u32_items(items@),
{
    let mut out: Vec<u32> = Vec::new();
    let mut i: usize = 0;
    while i < items.len()
        invariant
            i <= items@.len(),
            out@ == u32_items(items@.subrange(0, i as int)),
        decreases items@.len() - i,
    {
        assert(items@.subrange(0, i + 1).drop_last() =~= items@.subrange(0, i as int));
        match items[i].as_u64() {
            Some(n) => if n <= 0xFFFF_FFFF {
                out.push(n as u32);
            },
            None => {},
        }
        i = i + 1;
        assert(out@ =~= u32_items(items@.subrange(0, i as int)));
    }
    assert(items@.subrange(0, i as int) =~= items@);
    out
}

fn i32_items_exec(items: &Vec<JsonValue>) -> (r: Vec<i32>)
    ensures
        r@ == i32_items(items@),
{
    let mut out: Vec<i32> = Vec::new();
    let mut i: usize = 0;
    while i < items.len()
        invariant
            i <= items@.len(),
            out@ == i32_items(items@.subrange(0, i as int)),
        decreases items@.len() - i,
    {
        assert(items@.subrange(0, i + 1).drop_last() =~= items@.subrange(0, i as int));
        match items[i].as_i64() {
            Some(n) => if -0x8000_0000 <= n && n <= 0x7FFF_FFFF {
                out.push(n as i32);
            },
            None => {},
        }
        i = i + 1;
        assert(out@ =~= i32_items(items@.subrange(0, i as int)));
    }
    assert(items@.subrange(0, i as int) =~= items@);
    out
}

/// `value[key]`, when it is an array: its `u32` items.
pub fn json_u32_vec(value: &JsonValue, key: &str) -> (r: Option<Vec<u32>>)
    ensures
        match r {
            Some(v) => json_u32_vec_spec(*value, key@) == Some(v@),
            None => json_u32_vec_spec(*value, key@) is None,
        },
{
    match value.get(key) {
        Some(JsonValue::Array(items)) => Some(u32_items_exec(items)),
        _ => None,
    }
}

/// `value[key]`, when it is an array: its `i32` items.
pub fn json_i32_vec(value: &JsonValue, key: &str) -> (r: Option<Vec<i32>>)
    ensures
        match r {
            Some(v) => json_i32_vec_spec(*value, key@) == Some(v@),
            None => json_i32_vec_spec(*value, key@) is None,
        },
{
    match value.get(key) {
        Some(JsonValue::Array(items)) => Some(i32_items_exec(items)),
        _ => None,
    }
}

/// The `i32` items of the first of the keys whose field is an array.
pub open spec fn i32_vec_keys_spec(value: JsonValue, keys: Seq<&str>) -> Option<Seq<i32>>
    decreases keys.len(),
{
    if keys.len() == 0 {
        None
    } else {
        match json_i32_vec_spec(value, keys[0]@) {
            Some(v) => Some(v),
            None => i32_vec_keys_spec(value, keys.drop_first()),
        }
    }
}

/// `value[raw_key]` as an array of `i32`, else the first of `aliases`
/// whose field is an array.
pub fn json_i32_vec_alias(value: &JsonValue, raw_key: &str, aliases: &[&str]) -> (r: Option<Vec<i32>>)
    ensures
        match r {
            Some(v) => i32_vec_keys_spec(*value, seq![raw_key] + aliases@) == Some(v@),
            None => i32_vec_keys_spec(*value, seq![raw_key] + aliases@) is None,
        },
{
    let ghost keys = seq![raw_key] + aliases@;
    assert(keys.drop_first() =~= aliases@);
    match json_i32_vec(value, raw_key) {
        Some(v) => return Some(v),
        None => {},
    }
    let mut i: usize = 0;
    assert(aliases@.subrange(0, aliases@.len() as int) =~= aliases@);
    while i < aliases.len()
        invariant
            i <= aliases@.len(),
            keys == seq![raw_key] + aliases@,
            i32_vec_keys_spec(*value, keys) == i32_vec_keys_spec(*value, aliases@.subrange(i as int, aliases@.len() as int)),
        decreases aliases@.len() - i,
    {
        let ghost rest = aliases@.subrange(i as int, aliases@.len() as int);
        assert(rest[0] == aliases@[i as int]);
        assert(rest.drop_first() =~= aliases@.subrange(i + 1, aliases@.len() as int));
        match json_i32_vec(value, aliases[i]) {
            Some(v) => return Some(v),
            None => {},
        }
        i = i + 1;
    }
    None
}

// ---------------------------------------------------------------------------
// Strings
// ---------------------------------------------------------------------------

/// The decimal text of an integer.
pub open spec fn int_text(n: int) -> Seq<char> {
    if n < 0 {
        seq!['-'] + dec_seq((-n) as nat)
    } else {
        dec_seq(n as nat)
    }
}

/// The text of a scalar: a string as it is, an integer in decimal, any other
/// number by its text, a boolean as `1` or `0`.
pub open spec fn scalar_text(v: JsonValue) -> Option<Seq<char>> {
    match v {
        JsonValue::String(s) => Some(s@),
        JsonValue::Number(JsonNumber::PosInt(n)) => Some(dec_seq(n as nat)),
        JsonValue::Number(JsonNumber::NegInt(n)) => Some(int_text(n as int)),
        JsonValue::Number(JsonNumber::Float(t)) => Some(t@),
        JsonValue::Bool(b) => Some(if b {
            seq!['1']
        } else {
            seq!['0']
        }),
        _ => None,
    }
}

/// The text of a scalar (see `scalar_text`).
pub fn json_scalar_string(value: &JsonValue) -> (r: Option<String>)
    ensures
        match r {
            Some(s) => scalar_text(*value) == Some(s@),
            None => scalar_text(*value) is None,
        },
{
    match value {
        JsonValue::String(s) => Some(string_of(s.as_str())),
        JsonValue::Number(JsonNumber::PosInt(n)) => {
            let mut out = String::new();
            push_decimal(&mut out, *n);
            assert(out@ =~= dec_seq(*n as nat));
            Some(out)
        },
        JsonValue::Number(JsonNumber::NegInt(n)) => {
            let mut out = String::new();
            if *n < 0 {
                push_char(&mut out, '-');
                let magnitude: u64 = if *n == -0x8000_0000_0000_0000 {
                    0x8000_0000_0000_0000
                } else {
                    (-*n) as u64
                };
                assert(magnitude as int == -(*n as int));
                push_decimal(&mut out, magnitude);
            } else {
                push_decimal(&mut out, *n as u64);
            }
            assert(out@ =~= int_text(*n as int));
            Some(out)
        },
        JsonValue::Number(JsonNumber::Float(t)) => Some(string_of(t.as_str())),
        JsonValue::Bool(b) => {
            let t = if *b {
                "1"
            } else {
                "0"
            };
            proof {
                reveal_strlit("1");
                reveal_strlit("0");
            }
            let out = string_of(t);
            assert(out@ =~= if *b {
                seq!['1']
            } else {
                seq!['0']
            });
            Some(out)
        },
        _ => None,
    }
}

/// The field of the first key that `value` has.
pub open spec fn first_field(value: JsonValue, keys: Seq<&str>) -> Option<JsonValue>
    decreases keys.len(),
{
    if keys.len() == 0 {
        None
    } else {
        match json_get_spec(value, keys[0]@) {
            Some(v) => Some(v),
            None => first_field(value, keys.drop_first()),
        }
    }
}

/// The field of the first key that `value` has.
pub(crate) fn first_field_exec<'a>(value: &'a JsonValue, keys: &[&str]) -> (r: Option<&'a JsonValue>)
    ensures
        match r {
            Some(v) => first_field(*value, keys@) == Some(*v),
            None => first_field(*value, keys@) is None,
        },
{
    let mut i: usize = 0;
    assert(keys@.subrange(0, keys@.len() as int) =~= keys@);
    while i < keys.len()
        invariant
            i <= keys@.len(),
            first_field(*value, keys@) == first_field(*value, keys@.subrange(i as int, keys@.len() as int)),
        decreases keys@.len() - i,
    {
        let ghost rest = keys@.subrange(i as int, keys@.len() as int);
        assert(rest[0] == keys@[i as int]);
        assert(rest.drop_first() =~= keys@.subrange(i + 1, keys@.len() as int));
        match value.get(keys[i]) {
            Some(v) => return Some(v),
            None => {},
        }
        i = i + 1;
    }
    None
}

/// The text of the field under the first key that `value` has (nothing
/// when that field is no scalar).
pub fn json_string_alias(value: &JsonValue, keys: &[&str]) -> (r: Option<String>)
    ensures
        match r {
            Some(s) => first_field(*value, keys@) matches Some(v) && scalar_text(v) == Some(s@),
            None => match first_field(*value, keys@) {
                Some(v) => scalar_text(v) is None,
                None => true,
            },
        },
{
    match first_field_exec(value, keys) {
        Some(v) => json_scalar_string(v),
        None => None,
    }
}

/// A list of strings given as JSON: nothing for `null`, one for a string,
/// the items of an array of strings. Any other value, or an array with an
/// item that is no string, is refused.
pub open spec fn string_array_spec(value: JsonValue) -> Option<Seq<Seq<char>>> {
    match value {
        JsonValue::Null => Some(Seq::empty()),
        JsonValue::String(s) => Some(seq![s@]),
        JsonValue::Array(items) => if forall|i: int| 0 <= i < items@.len() ==> #[trigger] items@[i] is String {
            Some(items@.map_values(|v: JsonValue| match v {
                JsonValue::String(s) => s@,
                _ => Seq::empty(),
            }))
        } else {
            None
        },
        _ => None,
    }
}

/// A list of strings given as JSON (see `string_array_spec`); `context`
/// names the field in the error.
pub fn json_string_array_value(value: &JsonValue, context: &str) -> (r: Result<Vec<String>, String>)
    ensures
        match r {
            Ok(v) => string_array_spec(*value) == Some(v@.map_values(|s: String| s@)),
            Err(e) => string_array_spec(*value) is None && e@ == context@ + (if *value is Array {
                " entries must be strings"@
            } else {
                " must be a string array"@
            }),
        },
{
    match value {
        JsonValue::Null => {
            let v: Vec<String> = Vec::new();
            assert(v@.map_values(|s: String| s@) =~= Seq::<Seq<char>>::empty());
            Ok(v)
        },
        JsonValue::String(s) => {
            let mut v: Vec<String> = Vec::new();
            v.push(string_of(s.as_str()));
            assert(v@.map_values(|s: String| s@) =~= seq![s@]);
            Ok(v)
        },
        JsonValue::Array(items) => {
            let mut out: Vec<String> = Vec::new();
            let mut i: usize = 0;
            while i < items.len()
                invariant
                    i <= items@.len(),
                    *value == JsonValue::Array(*items),
                    out@.len() == i,
                    forall|j: int| 0 <= j < i ==> #[trigger] items@[j] is String,
                    forall|j: int| 0 <= j < i ==> (items@[j] matches JsonValue::String(t) && (#[trigger] out@[j])@ == t@),
                decreases items@.len() - i,
            {
                match &items[i] {
                    JsonValue::String(t) => {
                        out.push(string_of(t.as_str()));
                    },
                    _ => {
                        assert(!(items@[i as int] is String));
                        assert(string_array_spec(*value) is None);
                        let mut msg = string_of(context);
                        crate::text::push_str(&mut msg, " entries must be strings");
                        assert(msg@ == context@ + " entries must be strings"@);
                        return Err(msg);
                    },
                }
                i = i + 1;
            }
            assert(out@.map_values(|s: String| s@) =~= items@.map_values(|v: JsonValue| match v {
                JsonValue::String(s) => s@,
                _ => Seq::<char>::empty(),
            }));
            Ok(out)
        },
        _ => {
            let mut msg = string_of(context);
            crate::text::push_str(&mut msg, " must be a string array");
            Err(msg)
        },
    }
}

/// The member under the first of the keys that an object's members hold.
pub open spec fn first_member(members: Seq<(String, JsonValue)>, keys: Seq<&str>) -> Option<JsonValue>
    decreases keys.len(),
{
    if keys.len() == 0 {
        None
    } else {
        match members_get(members, keys[0]@) {
            Some(v) => Some(v),
            None => first_member(members, keys.drop_first()),
        }
    }
}

/// The strings of the member under the first of `keys` that an object
/// holds: none when it holds none of them, else that member read by
/// `string_array_spec`, refused as `picture effects raw_xml` when it is no
/// list of strings.
pub open spec fn string_array_alias_spec(members: Seq<(String, JsonValue)>, keys: Seq<&str>) -> Result<Seq<Seq<char>>, Seq<char>> {
    match first_member(members, keys) {
        None => Ok(Seq::empty()),
        Some(value) => match string_array_spec(value) {
            Some(list) => Ok(list),
            None => Err("picture effects raw_xml"@ + (if value is Array {
                " entries must be strings"@
            } else {
                " must be a string array"@
            })),
        },
    }
}

/// The strings of the member under the first of `keys` that an object
/// holds (see `string_array_alias_spec`).
pub fn json_string_array_alias(object: &Vec<(String, JsonValue)>, keys: &[&str]) -> (r: Result<Vec<String>, String>)
    ensures
        match r {
            Ok(v) => string_array_alias_spec(object@, keys@) == Ok::<Seq<Seq<char>>, Seq<char>>(v@.map_values(|s: String| s@)),
            Err(e) => string_array_alias_spec(object@, keys@) == Err::<Seq<Seq<char>>, Seq<char>>(e@),
        },
{
    let mut i: usize = 0;
    assert(keys@.subrange(0, keys@.len() as int) =~= keys@);
    while i < keys.len()
        invariant
            i <= keys@.len(),
            first_member(object@, keys@) == first_member(object@, keys@.subrange(i as int, keys@.len() as int)),
        decreases keys@.len() - i,
    {
        let ghost rest = keys@.subrange(i as int, keys@.len() as int);
        assert(rest[0] == keys@[i as int]);
        assert(rest.drop_first() =~= keys@.subrange(i + 1, keys@.len() as int));
        match members_lookup(object, keys[i]) {
            Some(value) => return json_string_array_value(value, "picture effects raw_xml"),
            None => {},
        }
        i = i + 1;
    }
    let empty: Vec<String> = Vec::new();
    assert(empty@.map_values(|s: String| s@) =~= Seq::<Seq<char>>::empty());
    Ok(empty)
}

// ---------------------------------------------------------------------------
// Colours
// ---------------------------------------------------------------------------

/// The colour reference a CSS-style colour text names: `none` (any ASCII
/// case) for no colour; else six or eight hexadecimal digits after an
/// optional `#` and an optional `0x` (or `0X` without `#`), read as
/// `0xAARRGGBB`; else a decimal `0xAARRGGBB`. Surrounding spaces are
/// ignored. (The digit count is taken in characters: a text with a
/// non-ASCII character is refused either way.)
pub open spec fn css_color_text_spec(text: Seq<char>) -> Option<u32> {
    let raw = trim_seq(text);
    if raw.map_values(|c: char| ascii_lower(c)) == "none"@ {
        Some(0xFFFF_FFFFu32)
    } else {
        let s1 = if raw.len() > 0 && raw[0] == '#' {
            raw.drop_first()
        } else {
            raw
        };
        let hex = if seq_starts_with(s1, "0x"@) {
            s1.subrange(2, s1.len() as int)
        } else if seq_starts_with(raw, "0X"@) {
            raw.subrange(2, raw.len() as int)
        } else {
            s1
        };
        let parsed = if hex.len() == 6 || hex.len() == 8 {
            parse_hex_u32_spec(hex)
        } else {
            parse_unsigned_spec(raw, u32::MAX as int)
        };
        match parsed {
            Some(v) => Some(rgb_to_color_ref_spec(v) as u32),
            None => None,
        }
    }
}

/// The colour reference a CSS-style colour text names (see
/// `css_color_text_spec`).
pub fn css_color_ref_text(text: &str) -> (r: Option<u32>)
    ensures
        r == css_color_text_spec(text@),
{
    proof {
        reveal_strlit("0x");
        reveal_strlit("0X");
    }
    let raw = trim_str(text);
    let lower = ascii_lowercase(raw);
    if str_eq(lower.as_str(), "none") {
        return Some(0xFFFF_FFFF);
    }
    let n = raw.unicode_len();
    let s1: &str = if n > 0 && raw.get_char(0) == '#' {
        raw.substring_char(1, n)
    } else {
        raw
    };
    proof {
        if raw@.len() > 0 && raw@[0] == '#' {
            assert(raw@.drop_first() =~= raw@.subrange(1, n as int));
        }
    }
    let hex: &str = if str_starts_with(s1, "0x") {
        s1.substring_char(2, s1.unicode_len())
    } else if str_starts_with(raw, "0X") {
        raw.substring_char(2, n)
    } else {
        s1
    };
    let hl = hex.unicode_len();
    let parsed = if hl == 6 || hl == 8 {
        parse_hex_u32(hex)
    } else {
        parse_u32(raw)
    };
    match parsed {
        Some(v) => Some(rgb_u32_to_color_ref(v)),
        None => None,
    }
}

/// A colour given as JSON: an integer `0xAARRGGBB` within `u32`, or a
/// CSS-style colour text; as a colour reference.
pub open spec fn css_color_value_spec(value: JsonValue) -> Option<u32> {
    match as_u64_spec(value) {
        Some(n) => if n <= u32::MAX {
            Some(rgb_to_color_ref_spec(n as int) as u32)
        } else {
            None
        },
        None => match as_i64_spec(value) {
            Some(n) => if 0 <= n <= u32::MAX {
                Some(rgb_to_color_ref_spec(n as int) as u32)
            } else {
                None
            },
            None => match value {
                JsonValue::String(s) => css_color_text_spec(s@),
                _ => None,
            },
        },
    }
}

/// A colour given as JSON, as a colour reference (see `css_color_value_spec`).
pub fn json_css_color_ref_value(value: &JsonValue) -> (r: Option<u32>)
    ensures
        r == css_color_value_spec(*value),
{
    match value.as_u64() {
        Some(n) => {
            return if n <= 0xFFFF_FFFF {
                Some(rgb_u32_to_color_ref(n as u32))
            } else {
                None
            };
        },
        None => {},
    }
    match value.as_i64() {
        Some(n) => {
            return if 0 <= n && n <= 0xFFFF_FFFF {
                Some(rgb_u32_to_color_ref(n as u32))
            } else {
                None
            };
        },
        None => {},
    }
    match value {
        JsonValue::String(s) => css_color_ref_text(s.as_str()),
        _ => None,
    }
}

/// The first of the keys whose field is a colour.
pub open spec fn color_keys_spec(value: JsonValue, keys: Seq<&str>) -> Option<u32>
    decreases keys.len(),
{
    if keys.len() == 0 {
        None
    } else {
        match json_get_spec(value, keys[0]@) {
            Some(v) => match css_color_value_spec(v) {
                Some(c) => Some(c),
                None => color_keys_spec(value, keys.drop_first()),
            },
            None => color_keys_spec(value, keys.drop_first()),
        }
    }
}

/// A colour reference: `value[raw_key]` as a `u32`, else the first of
/// `hex_keys` whose field is a colour.
pub fn json_color_ref_alias(value: &JsonValue, raw_key: &str, hex_keys: &[&str]) -> (r: Option<u32>)
    ensures
        r == (match json_unsigned_spec(*value, raw_key@, u32::MAX as int) {
            Some(n) => Some(n as u32),
            None => color_keys_spec(*value, hex_keys@),
        }),
{
    match json_u32(value, raw_key) {
        Some(n) => return Some(n),
        None => {},
    }
    let mut i: usize = 0;
    assert(hex_keys@.subrange(0, hex_keys@.len() as int) =~= hex_keys@);
    while i < hex_keys.len()
        invariant
            i <= hex_keys@.len(),
            json_unsigned_spec(*value, raw_key@, u32::MAX as int) is None,
            color_keys_spec(*value, hex_keys@) == color_keys_spec(*value, hex_keys@.subrange(i as int, hex_keys@.len() as int)),
        decreases hex_keys@.len() - i,
    {
        let ghost rest = hex_keys@.subrange(i as int, hex_keys@.len() as int);
        assert(rest[0] == hex_keys@[i as int]);
        assert(rest.drop_first() =~= hex_keys@.subrange(i + 1, hex_keys@.len() as int));
        match value.get(hex_keys[i]) {
            Some(v) => match json_css_color_ref_value(v) {
                Some(c) => return Some(c),
                None => {},
            },
            None => {},
        }
        i = i + 1;
    }
    None
}

/// The colour references among an array's items, in order.
pub open spec fn color_items(items: Seq<JsonValue>) -> Seq<u32>
    decreases items.len(),
{
    if items.len() == 0 {
        Seq::empty()
    } else {
        color_items(items.drop_last()) + match css_color_value_spec(items.last()) {
            Some(c) => seq![c],
            None => Seq::empty(),
        }
    }
}

/// The first of the keys whose field is an array, by its colours.
pub open spec fn color_array_keys_spec(value: JsonValue, keys: Seq<&str>) -> Option<Seq<u32>>
    decreases keys.len(),
{
    if keys.len() == 0 {
        None
    } else {
        match json_get_spec(value, keys[0]@) {
            Some(JsonValue::Array(items)) => Some(color_items(items@)),
            _ => color_array_keys_spec(value, keys.drop_first()),
        }
    }
}

fn color_items_exec(items: &Vec<JsonValue>) -> (r: Vec<u32>)
    ensures
        r@ == color_items(items@),
{
    let mut out: Vec<u32> = Vec::new();
    let mut i: usize = 0;
    while i < items.len()
        invariant
            i <= items@.len(),
            out@ == color_items(items@.subrange(0, i as int)),
        decreases items@.len() - i,
    {
        assert(items@.subrange(0, i + 1).drop_last() =~= items@.subrange(0, i as int));
        match json_css_color_ref_value(&items[i]) {
            Some(c) => out.push(c),
            None => {},
        }
        i = i + 1;
        assert(out@ =~= color_items(items@.subrange(0, i as int)));
    }
    assert(items@.subrange(0, i as int) =~= items@);
    out
}

/// A list of colour references: `value[raw_key]` as `u32` items, else the
/// colours of the first of `hex_keys` whose field is an array.
pub fn json_color_ref_vec_alias(value: &JsonValue, raw_key: &str, hex_keys: &[&str]) -> (r: Option<Vec<u32>>)
    ensures
        match r {
            Some(v) => Some(v@) == (match json_u32_vec_spec(*value, raw_key@) {
                Some(x) => Some(x),
                None => color_array_keys_spec(*value, hex_keys@),
            }),
            None => json_u32_vec_spec(*value, raw_key@) is None && color_array_keys_spec(*value, hex_keys@) is None,
        },
{
    match json_u32_vec(value, raw_key) {
        Some(v) => return Some(v),
        None => {},
    }
    let mut i: usize = 0;
    assert(hex_keys@.subrange(0, hex_keys@.len() as int) =~= hex_keys@);
    while i < hex_keys.len()
        invariant
            i <= hex_keys@.len(),
            json_u32_vec_spec(*value, raw_key@) is None,
            color_array_keys_spec(*value, hex_keys@) == color_array_keys_spec(*value, hex_keys@.subrange(i as int, hex_keys@.len() as int)),
        decreases hex_keys@.len() - i,
    {
        let ghost rest = hex_keys@.subrange(i as int, hex_keys@.len() as int);
        assert(rest[0] == hex_keys@[i as int]);
        assert(rest.drop_first() =~= hex_keys@.subrange(i + 1, hex_keys@.len() as int));
        match value.get(hex_keys[i]) {
            Some(JsonValue::Array(items)) => return Some(color_items_exec(items)),
            _ => {},
        }
        i = i + 1;
    }
    None
}

// ---------------------------------------------------------------------------
// Picture-effect colours
// ---------------------------------------------------------------------------

/// The decimal red, green and blue texts of the colour a JSON value names,
/// unless it names no colour.
pub open spec fn effect_rgb_of_value_spec(value: JsonValue) -> Option<(Seq<char>, Seq<char>, Seq<char>)> {
    match css_color_value_spec(value) {
        Some(c) => if c == 0xFFFF_FFFFu32 {
            None
        } else {
            let rgb = color_ref_to_rgb_spec(c as int);
            Some((dec_seq(byte_at(rgb, 2) as nat), dec_seq(byte_at(rgb, 1) as nat), dec_seq(byte_at(rgb, 0) as nat)))
        },
        None => None,
    }
}

/// The picture-effect colour a JSON colour value names (see
/// `effect_rgb_of_value_spec`).
pub fn effect_rgb_from_color_hex_value(value: &JsonValue) -> (r: Option<EffectRgb>)
    ensures
        match r {
            Some(e) => effect_rgb_of_value_spec(*value) matches Some((red, green, blue))
                && opt_view(e.r) == Some(red) && opt_view(e.g) == Some(green) && opt_view(e.b) == Some(blue),
            None => effect_rgb_of_value_spec(*value) is None,
        },
{
    let color_ref = match json_css_color_ref_value(value) {
        Some(c) => c,
        None => return None,
    };
    if color_ref == 0xFFFF_FFFF {
        return None;
    }
    let rgb = color_ref_to_rgb_u32(color_ref);
    proof {
        lemma_bytes_compose(rgb as int);
    }
    let mut red = String::new();
    push_decimal(&mut red, ((rgb / 0x1_0000) % 0x100) as u64);
    let mut green = String::new();
    push_decimal(&mut green, ((rgb / 0x100) % 0x100) as u64);
    let mut blue = String::new();
    push_decimal(&mut blue, (rgb % 0x100) as u64);
    assert(red@ =~= dec_seq(byte_at(rgb as int, 2) as nat));
    assert(green@ =~= dec_seq(byte_at(rgb as int, 1) as nat));
    assert(blue@ =~= dec_seq(byte_at(rgb as int, 0) as nat));
    Some(EffectRgb { r: Some(red), g: Some(green), b: Some(blue) })
}

/// The text of the scalar field `key`.
pub open spec fn field_text(value: JsonValue, key: Seq<char>) -> Option<Seq<char>> {
    match json_get_spec(value, key) {
        Some(v) => scalar_text(v),
        None => None,
    }
}

/// The text of the scalar field `key` (`json_string_alias` with one key).
pub(crate) fn json_string_field(value: &JsonValue, key: &str) -> (r: Option<String>)
    ensures
        opt_view(r) == field_text(*value, key@),
{
    match value.get(key) {
        Some(v) => json_scalar_string(v),
        None => None,
    }
}

/// A picture-effect colour from a JSON object with `r`, `g`, `b` fields.
pub fn effect_rgb_from_json(value: &JsonValue) -> (r: Result<EffectRgb, String>)
    ensures
        match r {
            Ok(e) => *value is Object && opt_view(e.r) == field_text(*value, "r"@) && opt_view(e.g)
                == field_text(*value, "g"@) && opt_view(e.b) == field_text(*value, "b"@),
            Err(m) => !(*value is Object) && m@ == "picture effect rgb must be an object"@,
        },
{
    match value {
        JsonValue::Object(_) => {
            let r = json_string_field(value, "r");
            let g = json_string_field(value, "g");
            let b = json_string_field(value, "b");
            Ok(EffectRgb { r, g, b })
        },
        _ => Err(string_of("picture effect rgb must be an object")),
    }
}

/// A colour given as JSON and turned into a picture-effect colour shows as
/// the `#RRGGBB` text of that colour.
pub proof fn lemma_effect_rgb_hex_of_color(value: JsonValue)
    requires
        effect_rgb_of_value_spec(value) is Some,
    ensures
        ({
            let rgb = color_ref_to_rgb_spec(css_color_value_spec(value)->0 as int);
            let (red, green, blue) = effect_rgb_of_value_spec(value)->0;
            effect_rgb_hex_spec(Some(red), Some(green), Some(blue)) == Some(
                seq!['#'] + hex2_seq(byte_at(rgb, 2)) + hex2_seq(byte_at(rgb, 1)) + hex2_seq(
                    byte_at(rgb, 0),
                ),
            )
        }),
{
    let c = css_color_value_spec(value)->0;
    let rgb = color_ref_to_rgb_spec(c as int);
    lemma_bytes_compose(c as int);
    lemma_bytes_compose(rgb);
    lemma_parse_dec_seq(byte_at(rgb, 2) as nat, 255);
    lemma_parse_dec_seq(byte_at(rgb, 1) as nat, 255);
    lemma_parse_dec_seq(byte_at(rgb, 0) as nat, 255);
}

} // verus!
