//! Small value conversions used by embedded objects: the little-endian OLE
//! tag record, colour references, file extensions, XML attribute text and
//! the text of table cells.

use crate::model::{Cell, EffectRgb, Paragraph, Table};
use crate::text::{
    all_hex, ascii_upper, char_is_ascii_alnum, char_is_ascii_alpha, char_to_ascii_upper, hex2_seq,
    hex_digit, is_ascii_alnum, is_ascii_alpha, is_hex_digit, parse_u8, parse_unsigned_spec,
    push_char, push_hex2, push_str, string_of, strip_leading_char, strip_leading_seq, trim_seq,
    trim_str,
};
use vstd::prelude::*;
use vstd::string::*;

verus! {

// ---------------------------------------------------------------------------
// Little-endian integers
// ---------------------------------------------------------------------------

/// The four bytes of `v` (taken modulo 2^32), least significant first.
pub open spec fn le32_bytes(v: int) -> Seq<u8> {
    seq![
        (v % 0x100) as u8,
        ((v / 0x100) % 0x100) as u8,
        ((v / 0x1_0000) % 0x100) as u8,
        ((v / 0x100_0000) % 0x100) as u8,
    ]
}

/// The unsigned value of the four bytes of `data` starting at `offset`.
pub open spec fn le32_value(data: Seq<u8>, offset: int) -> int {
    data[offset] + 0x100 * data[offset + 1] + 0x1_0000 * data[offset + 2] + 0x100_0000 * data[
        offset + 3]
}

/// The two's-complement reading of a 32-bit pattern.
pub open spec fn i32_of_bits(u: int) -> int {
    if u < 0x8000_0000 {
        u
    } else {
        u - 0x1_0000_0000
    }
}

/// The 32-bit pattern of a signed value.
pub open spec fn bits_of_i32(x: int) -> int {
    if x >= 0 {
        x
    } else {
        x + 0x1_0000_0000
    }
}

/// The `u32` stored little-endian at `offset`, when four bytes are there.
pub open spec fn read_u32_le_spec(data: Seq<u8>, offset: int) -> Option<int> {
    if offset + 4 <= data.len() {
        Some(le32_value(data, offset))
    } else {
        None
    }
}

/// Decoding the four bytes of a 32-bit value gives the value back.
pub proof fn lemma_le32_roundtrip(v: int)
    requires
        0 <= v < 0x1_0000_0000,
    ensures
        le32_value(le32_bytes(v), 0) == v,
{
    let b = le32_bytes(v);
    let q1 = v / 0x100;
    let q2 = v / 0x1_0000;
    let q3 = v / 0x100_0000;
    assert(v == q1 * 0x100 + v % 0x100) by (nonlinear_arith)
        requires
            q1 == v / 0x100,
    ;
    assert(q1 == q2 * 0x100 + q1 % 0x100 && q1 / 0x100 == q2) by (nonlinear_arith)
        requires
            q1 == v / 0x100,
            q2 == v / 0x1_0000,
            0 <= v,
    ;
    assert(q2 == q3 * 0x100 + q2 % 0x100 && q2 / 0x100 == q3) by (nonlinear_arith)
        requires
            q2 == v / 0x1_0000,
            q3 == v / 0x100_0000,
            0 <= v,
    ;
    assert(0 <= q3 < 0x100) by (nonlinear_arith)
        requires
            q3 == v / 0x100_0000,
            0 <= v < 0x1_0000_0000,
    ;
}

/// `u32::from_le_bytes` of `data[offset..offset + 4]`, when those bytes exist.
fn read_u32_le(data: &[u8], offset: usize) -> (r: Option<u32>)
    requires
        offset <= usize::MAX - 4,
    ensures
        match r {
            Some(v) => read_u32_le_spec(data@, offset as int) == Some(v as int),
            None => read_u32_le_spec(data@, offset as int) is None,
        },
{
    if offset + 4 > data.len() {
        return None;
    }
    let b0 = data[offset] as u32;
    let b1 = data[offset + 1] as u32;
    let b2 = data[offset + 2] as u32;
    let b3 = data[offset + 3] as u32;
    Some(((b3 * 0x100 + b2) * 0x100 + b1) * 0x100 + b0)
}

/// `i32::from_le_bytes` of `data[offset..offset + 4]`, when those bytes exist.
fn read_i32_le(data: &[u8], offset: usize) -> (r: Option<i32>)
    requires
        offset <= usize::MAX - 4,
    ensures
        match r {
            Some(v) => read_u32_le_spec(data@, offset as int) is Some && v == i32_of_bits(
                read_u32_le_spec(data@, offset as int)->0,
            ),
            None => read_u32_le_spec(data@, offset as int) is None,
        },
{
    match read_u32_le(data, offset) {
        None => None,
        Some(u) => {
            if u < 0x8000_0000 {
                Some(u as i32)
            } else {
                let low = (u - 0x8000_0000) as i32;
                Some(low - 0x7FFF_FFFF - 1)
            }
        },
    }
}

/// Appends the four little-endian bytes of `v`.
fn push_u32_le(out: &mut Vec<u8>, v: u32)
    ensures
        final(out)@ == old(out)@ + le32_bytes(v as int),
{
    out.push((v % 0x100) as u8);
    out.push(((v / 0x100) % 0x100) as u8);
    out.push(((v / 0x1_0000) % 0x100) as u8);
    out.push(((v / 0x100_0000) % 0x100) as u8);
    assert(final(out)@ =~= old(out)@ + le32_bytes(v as int));
}

/// The 32-bit pattern of an `i32`, as `i32::to_le_bytes` lays it out.
fn i32_bits(x: i32) -> (r: u32)
    ensures
        r == bits_of_i32(x as int),
{
    if x >= 0 {
        x as u32
    } else {
        let shifted = (x as i64) + 0x1_0000_0000;
        shifted as u32
    }
}

// ---------------------------------------------------------------------------
// OLE tag record
// ---------------------------------------------------------------------------

/// The record that a template writes for an OLE object: a version word, the
/// two extents, the binary-data id, two zero words and a zero half-word.
pub open spec fn ole_tag_bytes(extent_x: int, extent_y: int, bin_data_id: int) -> Seq<u8> {
    le32_bytes(1) + le32_bytes(bits_of_i32(extent_x)) + le32_bytes(bits_of_i32(extent_y))
        + le32_bytes(bin_data_id) + le32_bytes(0) + le32_bytes(0) + seq![0u8, 0u8]
}

/// The binary-data id stored in an OLE tag record (0 when it is too short).
pub open spec fn ole_tag_bin_data_id_spec(data: Seq<u8>) -> int {
    match read_u32_le_spec(data, 12) {
        Some(v) => v,
        None => 0,
    }
}

/// One extent of an OLE tag record: the stored value, or the fallback when
/// the record is too short, and at least 1.
pub open spec fn ole_tag_extent_spec(data: Seq<u8>, offset: int, fallback: int) -> int {
    let v = match read_u32_le_spec(data, offset) {
        Some(u) => i32_of_bits(u),
        None => i32_of_bits(fallback),
    };
    if v < 1 {
        1
    } else {
        v
    }
}

/// A fresh OLE tag record for the given extents and binary-data id.
pub fn template_ole_tag_data(extent_x: i32, extent_y: i32, bin_data_id: u32) -> (r: Vec<u8>)
    ensures
        r@ == ole_tag_bytes(extent_x as int, extent_y as int, bin_data_id as int),
        r@.len() == 26,
{
    let mut data: Vec<u8> = Vec::new();
    push_u32_le(&mut data, 1);
    push_u32_le(&mut data, i32_bits(extent_x));
    push_u32_le(&mut data, i32_bits(extent_y));
    push_u32_le(&mut data, bin_data_id);
    push_u32_le(&mut data, 0);
    push_u32_le(&mut data, 0);
    data.push(0);
    data.push(0);
    assert(data@ =~= ole_tag_bytes(extent_x as int, extent_y as int, bin_data_id as int));
    data
}

/// The binary-data id of an OLE tag record.
pub fn ole_tag_bin_data_id(raw_tag_data: &[u8]) -> (r: u32)
    ensures
        r == ole_tag_bin_data_id_spec(raw_tag_data@),
{
    match read_u32_le(raw_tag_data, 12) {
        Some(v) => v,
        None => 0,
    }
}

/// Overwrites the binary-data id of an OLE tag record; a record shorter than
/// 16 bytes is left as it is.
pub fn patch_ole_tag_bin_data_id(raw_tag_data: &mut Vec<u8>, bin_data_id: u32)
    ensures
        old(raw_tag_data)@.len() >= 16 ==> final(raw_tag_data)@ == old(raw_tag_data)@.subrange(
            0,
            12,
        ) + le32_bytes(bin_data_id as int) + old(raw_tag_data)@.subrange(
            16,
            old(raw_tag_data)@.len() as int,
        ),
        old(raw_tag_data)@.len() < 16 ==> final(raw_tag_data)@ == old(raw_tag_data)@,
{
    if raw_tag_data.len() >= 16 {
        let v = bin_data_id;
        raw_tag_data.set(12, (v % 0x100) as u8);
        raw_tag_data.set(13, ((v / 0x100) % 0x100) as u8);
        raw_tag_data.set(14, ((v / 0x1_0000) % 0x100) as u8);
        raw_tag_data.set(15, ((v / 0x100_0000) % 0x100) as u8);
        assert(raw_tag_data@ =~= old(raw_tag_data)@.subrange(0, 12) + le32_bytes(
            bin_data_id as int,
        ) + old(raw_tag_data)@.subrange(16, old(raw_tag_data)@.len() as int));
    }
}

/// The two extents of an OLE tag record, each at least 1; a record too short
/// to hold one gives the fallback size instead.
pub fn ole_tag_extents(raw_tag_data: &[u8], fallback_width: u32, fallback_height: u32) -> (r: (
    i32,
    i32,
))
    ensures
        r.0 == ole_tag_extent_spec(raw_tag_data@, 4, fallback_width as int),
        r.1 == ole_tag_extent_spec(raw_tag_data@, 8, fallback_height as int),
{
    let extent_x = match read_i32_le(raw_tag_data, 4) {
        Some(v) => v,
        None => reinterpret_u32(fallback_width),
    };
    let extent_y = match read_i32_le(raw_tag_data, 8) {
        Some(v) => v,
        None => reinterpret_u32(fallback_height),
    };
    (if extent_x < 1 {
        1
    } else {
        extent_x
    }, if extent_y < 1 {
        1
    } else {
        extent_y
    })
}

/// `u as i32`: the same 32 bits read as a signed value.
pub fn reinterpret_u32(u: u32) -> (r: i32)
    ensures
        r == i32_of_bits(u as int),
{
    if u < 0x8000_0000 {
        u as i32
    } else {
        let low = (u - 0x8000_0000) as i32;
        low - 0x7FFF_FFFF - 1
    }
}

/// A fresh OLE tag record gives back the binary-data id it was made with.
pub proof fn lemma_ole_tag_bin_data_id_of_template(extent_x: i32, extent_y: i32, bin_data_id: u32)
    ensures
        ole_tag_bin_data_id_spec(
            ole_tag_bytes(extent_x as int, extent_y as int, bin_data_id as int),
        ) == bin_data_id,
{
    let s = ole_tag_bytes(extent_x as int, extent_y as int, bin_data_id as int);
    lemma_le32_roundtrip(bin_data_id as int);
    let b = le32_bytes(bin_data_id as int);
    assert(s[12] == b[0] && s[13] == b[1] && s[14] == b[2] && s[15] == b[3]);
}

/// A fresh OLE tag record gives back its extents, raised to at least 1.
pub proof fn lemma_ole_tag_extents_of_template(
    extent_x: i32,
    extent_y: i32,
    bin_data_id: u32,
    fallback_width: u32,
    fallback_height: u32,
)
    ensures
        ole_tag_extent_spec(
            ole_tag_bytes(extent_x as int, extent_y as int, bin_data_id as int),
            4,
            fallback_width as int,
        ) == if extent_x < 1 {
            1
        } else {
            extent_x as int
        },
        ole_tag_extent_spec(
            ole_tag_bytes(extent_x as int, extent_y as int, bin_data_id as int),
            8,
            fallback_height as int,
        ) == if extent_y < 1 {
            1
        } else {
            extent_y as int
        },
{
    let s = ole_tag_bytes(extent_x as int, extent_y as int, bin_data_id as int);
    let bx = bits_of_i32(extent_x as int);
    let by = bits_of_i32(extent_y as int);
    lemma_le32_roundtrip(bx);
    lemma_le32_roundtrip(by);
    let ex = le32_bytes(bx);
    let ey = le32_bytes(by);
    assert(s[4] == ex[0] && s[5] == ex[1] && s[6] == ex[2] && s[7] == ex[3]);
    assert(s[8] == ey[0] && s[9] == ey[1] && s[10] == ey[2] && s[11] == ey[3]);
}

/// After a patch, a record of at least 16 bytes gives back the new id.
pub proof fn lemma_patched_ole_tag_bin_data_id(data: Seq<u8>, bin_data_id: u32)
    requires
        data.len() >= 16,
    ensures
        ole_tag_bin_data_id_spec(
            data.subrange(0, 12) + le32_bytes(bin_data_id as int) + data.subrange(
                16,
                data.len() as int,
            ),
        ) == bin_data_id,
{
    let s = data.subrange(0, 12) + le32_bytes(bin_data_id as int) + data.subrange(
        16,
        data.len() as int,
    );
    lemma_le32_roundtrip(bin_data_id as int);
    let b = le32_bytes(bin_data_id as int);
    assert(s.len() == data.len());
    assert(s[12] == b[0] && s[13] == b[1] && s[14] == b[2] && s[15] == b[3]);
}

// ---------------------------------------------------------------------------
// File extensions
// ---------------------------------------------------------------------------

/// An extension as a template gives it: trimmed, without leading dots.
pub open spec fn bare_extension(extension: Seq<char>) -> Seq<char> {
    strip_leading_seq(trim_seq(extension), '.')
}

/// The extension under which OLE data is stored: the given one, or `OLE`.
pub open spec fn normalized_ole_extension_spec(extension: Seq<char>) -> Seq<char> {
    let e = bare_extension(extension);
    if e.len() == 0 {
        seq!['O', 'L', 'E']
    } else {
        e
    }
}

/// The extension under which OLE data is stored: the given one without
/// surrounding spaces and leading dots, or `OLE` when nothing is left.
pub fn normalized_ole_extension(extension: &str) -> (r: String)
    ensures
        r@ == normalized_ole_extension_spec(extension@),
{
    let e = strip_leading_char(trim_str(extension), '.');
    if e.unicode_len() == 0 {
        let r = string_of("OLE");
        proof {
            reveal_strlit("OLE");
        }
        assert(r@ =~= seq!['O', 'L', 'E']);
        r
    } else {
        string_of(e)
    }
}

pub open spec fn is_path_separator(c: char) -> bool {
    c == '/' || c == '\\'
}

/// The last component of a path: what follows the last `/` or `\\`.
pub open spec fn file_name_of(path: Seq<char>) -> Seq<char>
    decreases path.len(),
{
    if path.len() == 0 {
        path
    } else if is_path_separator(path.last()) {
        Seq::empty()
    } else {
        file_name_of(path.drop_last()).push(path.last())
    }
}

/// What follows the last `.` of a name, if it has one.
pub open spec fn after_last_dot(name: Seq<char>) -> Option<Seq<char>>
    decreases name.len(),
{
    if name.len() == 0 {
        None
    } else if name.last() == '.' {
        Some(Seq::empty())
    } else {
        match after_last_dot(name.drop_last()) {
            Some(e) => Some(e.push(name.last())),
            None => None,
        }
    }
}

/// The extension of the file a path names: the trimmed text after the last
/// dot of its last component, when that is not empty.
pub open spec fn picture_extension_from_path_spec(path: Seq<char>) -> Option<Seq<char>> {
    match after_last_dot(file_name_of(path)) {
        Some(e) => if trim_seq(e).len() == 0 {
            None
        } else {
            Some(trim_seq(e))
        },
        None => None,
    }
}

/// The extension of the file a path names, if it has a non-empty one.
pub fn picture_extension_from_path(path: &str) -> (r: Option<String>)
    ensures
        match r {
            Some(e) => picture_extension_from_path_spec(path@) == Some(e@),
            None => picture_extension_from_path_spec(path@) is None,
        },
{
    let n = path.unicode_len();
    let mut j: usize = n;
    assert(path@.subrange(0, n as int) =~= path@);
    assert(path@.subrange(n as int, n as int) =~= Seq::<char>::empty());
    while j > 0 && !(path.get_char(j - 1) == '/' || path.get_char(j - 1) == '\\')
        invariant
            n == path@.len(),
            j <= n,
            file_name_of(path@) == file_name_of(path@.subrange(0, j as int)) + path@.subrange(
                j as int,
                n as int,
            ),
        decreases j,
    {
        let ghost pre = path@.subrange(0, j as int);
        assert(pre.drop_last() =~= path@.subrange(0, j - 1));
        assert(path@.subrange(j - 1, n as int) =~= seq![pre.last()] + path@.subrange(
            j as int,
            n as int,
        ));
        assert(file_name_of(pre) == file_name_of(pre.drop_last()).push(pre.last()));
        assert(file_name_of(pre.drop_last()).push(pre.last()) + path@.subrange(j as int, n as int)
            =~= file_name_of(pre.drop_last()) + path@.subrange(j - 1, n as int));
        j = j - 1;
    }
    let name = path.substring_char(j, n);
    proof {
        if j == 0 {
            assert(path@.subrange(0, 0) =~= Seq::<char>::empty());
        } else {
            assert(file_name_of(path@.subrange(0, j as int)) =~= Seq::<char>::empty());
        }
        assert(file_name_of(path@) =~= name@);
    }
    let m = name.unicode_len();
    let mut k: usize = m;
    assert(name@.subrange(0, m as int) =~= name@);
    assert(name@.subrange(m as int, m as int) =~= Seq::<char>::empty());
    while k > 0 && name.get_char(k - 1) != '.'
        invariant
            m == name@.len(),
            k <= m,
            after_last_dot(name@) == match after_last_dot(name@.subrange(0, k as int)) {
                Some(e) => Some(e + name@.subrange(k as int, m as int)),
                None => None,
            },
        decreases k,
    {
        let ghost pre = name@.subrange(0, k as int);
        assert(pre.drop_last() =~= name@.subrange(0, k - 1));
        assert(name@.subrange(k - 1, m as int) =~= seq![pre.last()] + name@.subrange(
            k as int,
            m as int,
        ));
        proof {
            match after_last_dot(pre.drop_last()) {
                Some(e) => {
                    assert(e.push(pre.last()) + name@.subrange(k as int, m as int) =~= e
                        + name@.subrange(k - 1, m as int));
                },
                None => {},
            }
        }
        k = k - 1;
    }
    if k == 0 {
        assert(name@.subrange(0, 0) =~= Seq::<char>::empty());
        return None;
    }
    proof {
        assert(after_last_dot(name@.subrange(0, k as int)) == Some(Seq::<char>::empty()));
        assert(Seq::<char>::empty() + name@.subrange(k as int, m as int) =~= name@.subrange(
            k as int,
            m as int,
        ));
    }
    let extension = trim_str(name.substring_char(k, m));
    if extension.unicode_len() == 0 {
        None
    } else {
        Some(string_of(extension))
    }
}

/// The extension under which picture data is stored: the given one, else
/// the one of the external path, else `png`.
pub open spec fn normalized_picture_extension_spec(extension: Seq<char>, external_path: Seq<
    char,
>) -> Seq<char> {
    let e = bare_extension(extension);
    if e.len() > 0 {
        e
    } else {
        match picture_extension_from_path_spec(external_path) {
            Some(p) => p,
            None => seq!['p', 'n', 'g'],
        }
    }
}

/// The extension under which picture data is stored.
pub fn normalized_picture_extension(extension: &str, external_path: &str) -> (r: String)
    ensures
        r@ == normalized_picture_extension_spec(extension@, external_path@),
{
    let e = strip_leading_char(trim_str(extension), '.');
    if e.unicode_len() > 0 {
        string_of(e)
    } else {
        match picture_extension_from_path(external_path) {
            Some(p) => p,
            None => {
                let r = string_of("png");
                proof {
                    reveal_strlit("png");
                }
                assert(r@ =~= seq!['p', 'n', 'g']);
                r
            },
        }
    }
}

// ---------------------------------------------------------------------------
// Colour references
// ---------------------------------------------------------------------------

/// The bytes of a colour reference `0xAABBGGRR`, red first.
pub open spec fn color_bytes(color: int) -> Seq<u8> {
    le32_bytes(color)
}

/// Byte `k` of a four-byte value, as an integer.
pub open spec fn byte_at(v: int, k: int) -> int {
    color_bytes(v)[k] as int
}

/// A value assembled from four bytes gives those bytes back.
pub proof fn lemma_bytes_of_composed(a: int, b: int, c: int, d: int)
    requires
        0 <= a < 256,
        0 <= b < 256,
        0 <= c < 256,
        0 <= d < 256,
    ensures
        byte_at(a + 0x100 * b + 0x1_0000 * c + 0x100_0000 * d, 0) == a,
        byte_at(a + 0x100 * b + 0x1_0000 * c + 0x100_0000 * d, 1) == b,
        byte_at(a + 0x100 * b + 0x1_0000 * c + 0x100_0000 * d, 2) == c,
        byte_at(a + 0x100 * b + 0x1_0000 * c + 0x100_0000 * d, 3) == d,
{
    let v = a + 0x100 * b + 0x1_0000 * c + 0x100_0000 * d;
    vstd::arithmetic::div_mod::lemma_fundamental_div_mod_converse(
        v,
        0x100,
        b + 0x100 * c + 0x1_0000 * d,
        a,
    );
    vstd::arithmetic::div_mod::lemma_fundamental_div_mod_converse(
        v,
        0x1_0000,
        c + 0x100 * d,
        a + 0x100 * b,
    );
    vstd::arithmetic::div_mod::lemma_fundamental_div_mod_converse(
        v,
        0x100_0000,
        d,
        a + 0x100 * b + 0x1_0000 * c,
    );
    vstd::arithmetic::div_mod::lemma_fundamental_div_mod_converse(
        b + 0x100 * c + 0x1_0000 * d,
        0x100,
        c + 0x100 * d,
        b,
    );
    vstd::arithmetic::div_mod::lemma_fundamental_div_mod_converse(c + 0x100 * d, 0x100, d, c);
    vstd::arithmetic::div_mod::lemma_fundamental_div_mod_converse(d, 0x100, 0, d);
}

/// A 32-bit value is the sum of its four bytes.
pub proof fn lemma_bytes_compose(v: int)
    requires
        0 <= v < 0x1_0000_0000,
    ensures
        v == byte_at(v, 0) + 0x100 * byte_at(v, 1) + 0x1_0000 * byte_at(v, 2) + 0x100_0000
            * byte_at(v, 3),
        0 <= byte_at(v, 0) < 256,
        0 <= byte_at(v, 1) < 256,
        0 <= byte_at(v, 2) < 256,
        0 <= byte_at(v, 3) < 256,
{
    lemma_le32_roundtrip(v);
}

/// The text form of a colour reference: `none` for the "no colour" value,
/// else `#RRGGBB`, with the alpha byte in front (`#AARRGGBB`) when it is set.
pub open spec fn color_ref_hex_spec(color: int) -> Seq<char> {
    if color == 0xFFFF_FFFF {
        seq!['n', 'o', 'n', 'e']
    } else {
        let alpha = if byte_at(color, 3) == 0 {
            Seq::<char>::empty()
        } else {
            hex2_seq(byte_at(color, 3))
        };
        seq!['#'] + alpha + hex2_seq(byte_at(color, 0)) + hex2_seq(byte_at(color, 1)) + hex2_seq(
            byte_at(color, 2),
        )
    }
}

/// The text form of a colour reference (see `color_ref_hex_spec`).
pub fn color_ref_to_hex(color: u32) -> (r: String)
    ensures
        r@ == color_ref_hex_spec(color as int),
{
    if color == 0xFFFF_FFFF {
        let r = string_of("none");
        proof {
            reveal_strlit("none");
        }
        assert(r@ =~= seq!['n', 'o', 'n', 'e']);
        return r;
    }
    let a = color / 0x100_0000;
    let red = color % 0x100;
    let green = (color / 0x100) % 0x100;
    let blue = (color / 0x1_0000) % 0x100;
    proof {
        lemma_bytes_compose(color as int);
    }
    let mut out = string_of("#");
    proof {
        reveal_strlit("#");
    }
    if a != 0 {
        push_hex2(&mut out, a);
    }
    push_hex2(&mut out, red);
    push_hex2(&mut out, green);
    push_hex2(&mut out, blue);
    assert(out@ =~= color_ref_hex_spec(color as int));
    out
}

/// The colour reference (`0xAABBGGRR`) of a `0xAARRGGBB` value.
pub open spec fn rgb_to_color_ref_spec(raw: int) -> int {
    byte_at(raw, 2) + 0x100 * byte_at(raw, 1) + 0x1_0000 * byte_at(raw, 0) + 0x100_0000 * byte_at(
        raw,
        3,
    )
}

/// The `0xRRGGBB` value of a colour reference; the alpha byte is dropped.
pub open spec fn color_ref_to_rgb_spec(color: int) -> int {
    byte_at(color, 2) + 0x100 * byte_at(color, 1) + 0x1_0000 * byte_at(color, 0)
}

/// Swaps the red and blue bytes of a `0xAARRGGBB` value, keeping alpha.
pub fn rgb_u32_to_color_ref(raw: u32) -> (r: u32)
    ensures
        r == rgb_to_color_ref_spec(raw as int),
{
    proof {
        lemma_bytes_compose(raw as int);
    }
    let a = raw / 0x100_0000;
    let red = (raw / 0x1_0000) % 0x100;
    let green = (raw / 0x100) % 0x100;
    let blue = raw % 0x100;
    blue * 0x1_0000 + green * 0x100 + red + a * 0x100_0000
}

/// The `0xRRGGBB` value of a colour reference `0x??BBGGRR`.
pub fn color_ref_to_rgb_u32(color: u32) -> (r: u32)
    ensures
        r == color_ref_to_rgb_spec(color as int),
{
    proof {
        lemma_bytes_compose(color as int);
    }
    let red = color % 0x100;
    let green = (color / 0x100) % 0x100;
    let blue = (color / 0x1_0000) % 0x100;
    red * 0x1_0000 + green * 0x100 + blue
}

/// A colour reference made from a `0xAARRGGBB` value holds its red byte
/// lowest, then green, then blue, then alpha: the red and blue bytes trade
/// places and the other two stay.
pub proof fn lemma_rgb_to_color_ref_bytes(raw: u32)
    ensures
        byte_at(rgb_to_color_ref_spec(raw as int), 0) == byte_at(raw as int, 2),
        byte_at(rgb_to_color_ref_spec(raw as int), 1) == byte_at(raw as int, 1),
        byte_at(rgb_to_color_ref_spec(raw as int), 2) == byte_at(raw as int, 0),
        byte_at(rgb_to_color_ref_spec(raw as int), 3) == byte_at(raw as int, 3),
{
    lemma_bytes_compose(raw as int);
    lemma_bytes_of_composed(byte_at(raw as int, 2), byte_at(raw as int, 1), byte_at(raw as int, 0), byte_at(raw as int, 3));
}

/// The `0xRRGGBB` value of a colour reference `0x??BBGGRR` holds its blue
/// byte lowest, then green, then red, and no alpha.
pub proof fn lemma_color_ref_to_rgb_bytes(color: u32)
    ensures
        byte_at(color_ref_to_rgb_spec(color as int), 0) == byte_at(color as int, 2),
        byte_at(color_ref_to_rgb_spec(color as int), 1) == byte_at(color as int, 1),
        byte_at(color_ref_to_rgb_spec(color as int), 2) == byte_at(color as int, 0),
        byte_at(color_ref_to_rgb_spec(color as int), 3) == 0,
{
    lemma_bytes_compose(color as int);
    lemma_bytes_of_composed(byte_at(color as int, 2), byte_at(color as int, 1), byte_at(color as int, 0), 0);
}

/// Turning a `0xAARRGGBB` value into a colour reference and back gives its
/// `0xRRGGBB` part.
pub proof fn lemma_color_ref_rgb_roundtrip(raw: u32)
    ensures
        color_ref_to_rgb_spec(rgb_to_color_ref_spec(raw as int)) == raw as int % 0x100_0000,
{
    lemma_bytes_compose(raw as int);
    lemma_bytes_of_composed(byte_at(raw as int, 2), byte_at(raw as int, 1), byte_at(raw as int, 0), byte_at(raw as int, 3));
    vstd::arithmetic::div_mod::lemma_fundamental_div_mod_converse(
        raw as int,
        0x100_0000,
        byte_at(raw as int, 3),
        byte_at(raw as int, 0) + 0x100 * byte_at(raw as int, 1) + 0x1_0000 * byte_at(raw as int, 2),
    );
}

/// Turning a colour reference into `0xRRGGBB` and back gives the reference
/// without its alpha byte.
pub proof fn lemma_rgb_color_ref_roundtrip(color: u32)
    ensures
        rgb_to_color_ref_spec(color_ref_to_rgb_spec(color as int)) == color as int % 0x100_0000,
{
    lemma_bytes_compose(color as int);
    lemma_bytes_of_composed(byte_at(color as int, 2), byte_at(color as int, 1), byte_at(color as int, 0), 0);
    vstd::arithmetic::div_mod::lemma_fundamental_div_mod_converse(
        color as int,
        0x100_0000,
        byte_at(color as int, 3),
        byte_at(color as int, 0) + 0x100 * byte_at(color as int, 1) + 0x1_0000 * byte_at(color as int, 2),
    );
}

// ---------------------------------------------------------------------------
// Colours as text
// ---------------------------------------------------------------------------

/// The upper-case ASCII form of every character.
pub open spec fn ascii_upper_seq(s: Seq<char>) -> Seq<char> {
    s.map_values(|c: char| ascii_upper(c))
}

/// The trimmed text without one leading `#`.
pub open spec fn xml_color_digits(value: Seq<char>) -> Seq<char> {
    let t = trim_seq(value);
    if t.len() > 0 && t[0] == '#' {
        t.drop_first()
    } else {
        t
    }
}

/// A drawing-style colour as `#RRGGBB` with upper-case digits: the trimmed
/// text, without one leading `#`, must be six hexadecimal digits.
pub open spec fn normalize_xml_color_hex_spec(value: Seq<char>) -> Option<Seq<char>> {
    let hex = xml_color_digits(value);
    if hex.len() == 6 && all_hex(hex) {
        Some(seq!['#'] + ascii_upper_seq(hex))
    } else {
        None
    }
}

/// A drawing-style colour as `#RRGGBB`, or `None` when the text is not six
/// hexadecimal digits (after trimming and one optional `#`).
pub fn drawing_style_normalize_xml_color_hex(value: &str) -> (r: Option<String>)
    ensures
        match r {
            Some(h) => normalize_xml_color_hex_spec(value@) == Some(h@),
            None => normalize_xml_color_hex_spec(value@) is None,
        },
{
    let t = trim_str(value);
    let n = t.unicode_len();
    let start: usize = if n > 0 && t.get_char(0) == '#' {
        1
    } else {
        0
    };
    let ghost hex = if t@.len() > 0 && t@[0] == '#' {
        t@.drop_first()
    } else {
        t@
    };
    assert(hex =~= t@.subrange(start as int, n as int));
    if n - start != 6 {
        return None;
    }
    let mut out = string_of("#");
    proof {
        reveal_strlit("#");
    }
    let mut i: usize = start;
    while i < n
        invariant
            n == t@.len(),
            start <= i <= n,
            n - start == 6,
            hex == xml_color_digits(value@),
            hex =~= t@.subrange(start as int, n as int),
            forall|j: int| 0 <= j < i - start ==> #[trigger] is_hex_digit(hex[j]),
            out@ == seq!['#'] + ascii_upper_seq(hex.subrange(0, i - start)),
        decreases n - i,
    {
        let c = t.get_char(i);
        if let None = hex_digit(c) {
            assert(hex[i - start] == c);
            assert(!is_hex_digit(hex[i - start]));
            assert(!all_hex(hex));
            return None;
        }
        push_char(&mut out, char_to_ascii_upper(c));
        assert(ascii_upper_seq(hex.subrange(0, i + 1 - start)) =~= ascii_upper_seq(
            hex.subrange(0, i - start),
        ).push(ascii_upper(c)));
        i = i + 1;
    }
    assert(hex.subrange(0, 6) =~= hex);
    Some(out)
}

/// The `#RRGGBB` text of a picture-effect colour whose three components are
/// decimal bytes (surrounding spaces allowed).
pub open spec fn effect_rgb_hex_spec(r: Option<Seq<char>>, g: Option<Seq<char>>, b: Option<
    Seq<char>,
>) -> Option<Seq<char>> {
    match (r, g, b) {
        (Some(r), Some(g), Some(b)) => match (
            parse_unsigned_spec(trim_seq(r), 255),
            parse_unsigned_spec(trim_seq(g), 255),
            parse_unsigned_spec(trim_seq(b), 255),
        ) {
            (Some(rv), Some(gv), Some(bv)) => Some(
                seq!['#'] + hex2_seq(rv) + hex2_seq(gv) + hex2_seq(bv),
            ),
            _ => None,
        },
        _ => None,
    }
}

pub open spec fn opt_view(s: Option<String>) -> Option<Seq<char>> {
    match s {
        Some(t) => Some(t@),
        None => None,
    }
}

/// One decimal colour component (`str::trim` then `parse::<u8>`).
fn effect_component(value: &Option<String>) -> (r: Option<u8>)
    ensures
        match r {
            Some(v) => opt_view(*value) is Some && parse_unsigned_spec(
                trim_seq(opt_view(*value)->0),
                255,
            ) == Some(v as int),
            None => opt_view(*value) is None || parse_unsigned_spec(
                trim_seq(opt_view(*value)->0),
                255,
            ) is None,
        },
{
    match value {
        Some(text) => parse_u8(trim_str(text.as_str())),
        None => None,
    }
}

/// The `#RRGGBB` text of a picture-effect colour, when its three components
/// are present and each is a decimal byte.
pub fn effect_rgb_color_hex(rgb: &EffectRgb) -> (r: Option<String>)
    ensures
        match r {
            Some(h) => effect_rgb_hex_spec(opt_view(rgb.r), opt_view(rgb.g), opt_view(rgb.b))
                == Some(h@),
            None => effect_rgb_hex_spec(opt_view(rgb.r), opt_view(rgb.g), opt_view(rgb.b)) is None,
        },
{
    let r = match effect_component(&rgb.r) {
        Some(v) => v,
        None => return None,
    };
    let g = match effect_component(&rgb.g) {
        Some(v) => v,
        None => return None,
    };
    let b = match effect_component(&rgb.b) {
        Some(v) => v,
        None => return None,
    };
    let mut out = string_of("#");
    proof {
        reveal_strlit("#");
    }
    push_hex2(&mut out, r as u32);
    push_hex2(&mut out, g as u32);
    push_hex2(&mut out, b as u32);
    assert(out@ =~= seq!['#'] + hex2_seq(r as int) + hex2_seq(g as int) + hex2_seq(b as int));
    Some(out)
}

// ---------------------------------------------------------------------------
// XML attribute text
// ---------------------------------------------------------------------------

/// A name that may stand as an XML attribute name: a letter, `_` or `:`,
/// then letters, digits, `_`, `-`, `:` or `.`.
pub open spec fn safe_xml_name_spec(s: Seq<char>) -> bool {
    &&& s.len() > 0
    &&& (is_ascii_alpha(s[0]) || s[0] == '_' || s[0] == ':')
    &&& forall|i: int|
        1 <= i < s.len() ==> (is_ascii_alnum(#[trigger] s[i]) || s[i] == '_' || s[i] == '-'
            || s[i] == ':' || s[i] == '.')
}

/// Whether `value` may stand as an XML attribute name.
pub fn drawing_style_safe_xml_name(value: &str) -> (r: bool)
    ensures
        r == safe_xml_name_spec(value@),
{
    let n = value.unicode_len();
    if n == 0 {
        return false;
    }
    let first = value.get_char(0);
    if !(char_is_ascii_alpha(first) || first == '_' || first == ':') {
        return false;
    }
    let mut i: usize = 1;
    while i < n
        invariant
            n == value@.len(),
            1 <= i <= n,
            forall|j: int|
                1 <= j < i ==> (is_ascii_alnum(#[trigger] value@[j]) || value@[j] == '_'
                    || value@[j] == '-' || value@[j] == ':' || value@[j] == '.'),
        decreases n - i,
    {
        let c = value.get_char(i);
        if !(char_is_ascii_alnum(c) || c == '_' || c == '-' || c == ':' || c == '.') {
            return false;
        }
        i = i + 1;
    }
    true
}

/// The XML escape of one character in an attribute value.
pub open spec fn xml_escape_char(c: char) -> Seq<char> {
    if c == '&' {
        seq!['&', 'a', 'm', 'p', ';']
    } else if c == '<' {
        seq!['&', 'l', 't', ';']
    } else if c == '>' {
        seq!['&', 'g', 't', ';']
    } else if c == '"' {
        seq!['&', 'q', 'u', 'o', 't', ';']
    } else if c == '\'' {
        seq!['&', 'a', 'p', 'o', 's', ';']
    } else {
        seq![c]
    }
}

/// The XML attribute-value escape of a text.
pub open spec fn xml_attr_escape_spec(s: Seq<char>) -> Seq<char>
    decreases s.len(),
{
    if s.len() == 0 {
        s
    } else {
        xml_attr_escape_spec(s.drop_last()) + xml_escape_char(s.last())
    }
}

/// Appends the escape of one character.
fn push_xml_escaped(out: &mut String, c: char)
    ensures
        final(out)@ == old(out)@ + xml_escape_char(c),
{
    if c == '&' {
        push_str(out, "&amp;");
        proof {
            reveal_strlit("&amp;");
        }
    } else if c == '<' {
        push_str(out, "&lt;");
        proof {
            reveal_strlit("&lt;");
        }
    } else if c == '>' {
        push_str(out, "&gt;");
        proof {
            reveal_strlit("&gt;");
        }
    } else if c == '"' {
        push_str(out, "&quot;");
        proof {
            reveal_strlit("&quot;");
        }
    } else if c == '\'' {
        push_str(out, "&apos;");
        proof {
            reveal_strlit("&apos;");
        }
    } else {
        push_char(out, c);
        assert(final(out)@ =~= old(out)@ + seq![c]);
    }
    assert(final(out)@ =~= old(out)@ + xml_escape_char(c));
}

/// `value` with `&`, `<`, `>`, `"` and `'` written as XML entities.
pub fn drawing_style_xml_attr_escape(value: &str) -> (r: String)
    ensures
        r@ == xml_attr_escape_spec(value@),
{
    let n = value.unicode_len();
    let mut out = String::new();
    let mut i: usize = 0;
    while i < n
        invariant
            n == value@.len(),
            i <= n,
            out@ == xml_attr_escape_spec(value@.subrange(0, i as int)),
        decreases n - i,
    {
        let c = value.get_char(i);
        let ghost pre = value@.subrange(0, i + 1);
        assert(pre.drop_last() =~= value@.subrange(0, i as int));
        push_xml_escaped(&mut out, c);
        i = i + 1;
    }
    assert(value@.subrange(0, n as int) =~= value@);
    out
}

// ---------------------------------------------------------------------------
// Text of paragraphs and table cells
// ---------------------------------------------------------------------------

/// The texts of the paragraphs joined by line feeds.
pub open spec fn joined_paragraph_text(paragraphs: Seq<Paragraph>) -> Seq<char>
    decreases paragraphs.len(),
{
    if paragraphs.len() == 0 {
        Seq::empty()
    } else if paragraphs.len() == 1 {
        paragraphs[0].text@
    } else {
        joined_paragraph_text(paragraphs.drop_last()) + seq!['\n'] + paragraphs.last().text@
    }
}

/// The texts of the paragraphs joined by line feeds.
pub fn paragraph_text(paragraphs: &[Paragraph]) -> (r: String)
    ensures
        r@ == joined_paragraph_text(paragraphs@),
{
    let n = paragraphs.len();
    let mut out = String::new();
    let mut i: usize = 0;
    while i < n
        invariant
            n == paragraphs@.len(),
            i <= n,
            out@ == joined_paragraph_text(paragraphs@.subrange(0, i as int)),
        decreases n - i,
    {
        let ghost pre = paragraphs@.subrange(0, i + 1);
        assert(pre.drop_last() =~= paragraphs@.subrange(0, i as int));
        if i > 0 {
            push_char(&mut out, '\n');
        }
        push_str(&mut out, paragraphs[i].text.as_str());
        proof {
            if i == 0 {
                assert(out@ =~= pre[0].text@);
            }
        }
        i = i + 1;
    }
    assert(paragraphs@.subrange(0, n as int) =~= paragraphs@);
    out
}

/// The text that a table's cell at (`row`, `col`) shows: that of the last
/// cell listed at that place, or nothing.
pub open spec fn cell_text_at(cells: Seq<Cell>, row: int, col: int) -> Seq<char>
    decreases cells.len(),
{
    if cells.len() == 0 {
        Seq::empty()
    } else if cells.last().row == row && cells.last().col == col {
        joined_paragraph_text(cells.last().paragraphs@)
    } else {
        cell_text_at(cells.drop_last(), row, col)
    }
}

/// At least 1.
pub open spec fn at_least_one(n: int) -> int {
    if n < 1 {
        1
    } else {
        n
    }
}

/// The text of the last cell at (`row`, `col`).
fn cell_text(cells: &Vec<Cell>, row: u16, col: u16) -> (r: String)
    ensures
        r@ == cell_text_at(cells@, row as int, col as int),
{
    let mut k: usize = cells.len();
    assert(cells@.subrange(0, k as int) =~= cells@);
    while k > 0
        invariant
            k <= cells@.len(),
            cell_text_at(cells@, row as int, col as int) == cell_text_at(
                cells@.subrange(0, k as int),
                row as int,
                col as int,
            ),
        decreases k,
    {
        let ghost pre = cells@.subrange(0, k as int);
        assert(pre.drop_last() =~= cells@.subrange(0, k - 1));
        let cell = &cells[k - 1];
        if cell.row == row && cell.col == col {
            return paragraph_text(cell.paragraphs.as_slice());
        }
        k = k - 1;
    }
    String::new()
}

/// The text of a table as rows of cell texts (at least one row and one
/// column).
pub fn table_text_matrix(table: &Table) -> (r: Vec<Vec<String>>)
    ensures
        r@.len() == at_least_one(table.row_count as int),
        forall|i: int|
            0 <= i < r@.len() ==> (#[trigger] r@[i])@.len() == at_least_one(
                table.col_count as int,
            ),
        forall|i: int, j: int|
            0 <= i < r@.len() && 0 <= j < r@[i]@.len() ==> (#[trigger] r@[i]@[j])@
                == cell_text_at(table.cells@, i, j),
{
    let row_count: u16 = if table.row_count < 1 {
        1
    } else {
        table.row_count
    };
    let col_count: u16 = if table.col_count < 1 {
        1
    } else {
        table.col_count
    };
    let mut rows: Vec<Vec<String>> = Vec::new();
    let mut i: u16 = 0;
    while i < row_count
        invariant
            i <= row_count,
            row_count == at_least_one(table.row_count as int),
            col_count == at_least_one(table.col_count as int),
            rows@.len() == i,
            forall|a: int| 0 <= a < i ==> (#[trigger] rows@[a])@.len() == col_count,
            forall|a: int, b: int|
                0 <= a < i && 0 <= b < rows@[a]@.len() ==> (#[trigger] rows@[a]@[b])@
                    == cell_text_at(table.cells@, a, b),
        decreases row_count - i,
    {
        let mut row: Vec<String> = Vec::new();
        let mut j: u16 = 0;
        while j < col_count
            invariant
                j <= col_count,
                row@.len() == j,
                forall|b: int| 0 <= b < j ==> (#[trigger] row@[b])@ == cell_text_at(
                    table.cells@,
                    i as int,
                    b,
                ),
            decreases col_count - j,
        {
            row.push(cell_text(&table.cells, i, j));
            j = j + 1;
        }
        rows.push(row);
        i = i + 1;
    }
    rows
}

} // verus!
