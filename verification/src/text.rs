//! Character-sequence utilities shared by the rest of the crate: equality,
//! Unicode whitespace trimming, prefix tests and decimal / hexadecimal
//! number text in the forms that Rust's `str::parse` and `from_str_radix`
//! accept.

use vstd::prelude::*;
use vstd::string::*;

verus! {

// ---------------------------------------------------------------------------
// Equality and prefixes
// ---------------------------------------------------------------------------

/// Whether two string slices hold the same characters.
pub fn str_eq(a: &str, b: &str) -> (r: bool)
    ensures
        r == (a@ == b@),
{
    let la = a.unicode_len();
    let lb = b.unicode_len();
    if la != lb {
        return false;
    }
    let mut i: usize = 0;
    while i < la
        invariant
            la == a@.len(),
            lb == b@.len(),
            la == lb,
            i <= la,
            forall|j: int| 0 <= j < i ==> a@[j] == b@[j],
        decreases la - i,
    {
        if a.get_char(i) != b.get_char(i) {
            return false;
        }
        i = i + 1;
    }
    assert(a@ =~= b@);
    true
}

/// `p` is a prefix of `s`.
pub open spec fn seq_starts_with(s: Seq<char>, p: Seq<char>) -> bool {
    p.len() <= s.len() && s.subrange(0, p.len() as int) =~= p
}

/// Whether `s` begins with `prefix` (as `str::starts_with` with a string pattern).
pub fn str_starts_with(s: &str, prefix: &str) -> (r: bool)
    ensures
        r == seq_starts_with(s@, prefix@),
{
    let ls = s.unicode_len();
    let lp = prefix.unicode_len();
    if lp > ls {
        return false;
    }
    let mut i: usize = 0;
    while i < lp
        invariant
            ls == s@.len(),
            lp == prefix@.len(),
            lp <= ls,
            i <= lp,
            forall|j: int| 0 <= j < i ==> s@[j] == prefix@[j],
        decreases lp - i,
    {
        if s.get_char(i) != prefix.get_char(i) {
            assert(s@.subrange(0, lp as int)[i as int] != prefix@[i as int]);
            return false;
        }
        i = i + 1;
    }
    assert(s@.subrange(0, lp as int) =~= prefix@);
    true
}

/// Appends one character (`String::push`).
#[verifier::external_body]
pub fn push_char(s: &mut String, c: char)
    ensures
        final(s)@ == old(s)@.push(c),
{
    s.push(c);
}

/// Appends a string slice.
pub fn push_str(s: &mut String, t: &str)
    ensures
        final(s)@ == old(s)@ + t@,
{
    s.append(t);
}

/// A fresh string holding the characters of `t`.
pub fn string_of(t: &str) -> (r: String)
    ensures
        r@ == t@,
{
    String::from_str(t)
}

// ---------------------------------------------------------------------------
// Unicode whitespace and trimming
// ---------------------------------------------------------------------------

/// The Unicode `White_Space` property, which `char::is_whitespace` decides.
pub open spec fn is_ws(c: char) -> bool {
    ||| ('\u{9}' <= c && c <= '\u{d}')
    ||| c == ' '
    ||| c == '\u{85}'
    ||| c == '\u{a0}'
    ||| c == '\u{1680}'
    ||| ('\u{2000}' <= c && c <= '\u{200a}')
    ||| c == '\u{2028}'
    ||| c == '\u{2029}'
    ||| c == '\u{202f}'
    ||| c == '\u{205f}'
    ||| c == '\u{3000}'
}

/// `char::is_whitespace`.
pub fn char_is_whitespace(c: char) -> (r: bool)
    ensures
        r == is_ws(c),
{
    ('\u{9}' <= c && c <= '\u{d}') || c == ' ' || c == '\u{85}' || c == '\u{a0}' || c
        == '\u{1680}' || ('\u{2000}' <= c && c <= '\u{200a}') || c == '\u{2028}' || c
        == '\u{2029}' || c == '\u{202f}' || c == '\u{205f}' || c == '\u{3000}'
}

/// `s` without its leading whitespace.
pub open spec fn trim_start_seq(s: Seq<char>) -> Seq<char>
    decreases s.len(),
{
    if s.len() > 0 && is_ws(s[0]) {
        trim_start_seq(s.drop_first())
    } else {
        s
    }
}

/// `s` without its trailing whitespace.
pub open spec fn trim_end_seq(s: Seq<char>) -> Seq<char>
    decreases s.len(),
{
    if s.len() > 0 && is_ws(s.last()) {
        trim_end_seq(s.drop_last())
    } else {
        s
    }
}

/// `s` without leading and trailing whitespace (`str::trim`).
pub open spec fn trim_seq(s: Seq<char>) -> Seq<char> {
    trim_end_seq(trim_start_seq(s))
}

/// `str::trim_start`.
pub fn trim_start_str(s: &str) -> (r: &str)
    ensures
        r@ == trim_start_seq(s@),
{
    let n = s.unicode_len();
    let mut i: usize = 0;
    assert(s@.subrange(0, n as int) =~= s@);
    while i < n && char_is_whitespace(s.get_char(i))
        invariant
            n == s@.len(),
            i <= n,
            trim_start_seq(s@) == trim_start_seq(s@.subrange(i as int, n as int)),
        decreases n - i,
    {
        assert(s@.subrange(i as int, n as int).drop_first() =~= s@.subrange(
            i + 1,
            n as int,
        ));
        i = i + 1;
    }
    s.substring_char(i, n)
}

/// `str::trim_end`.
pub fn trim_end_str(s: &str) -> (r: &str)
    ensures
        r@ == trim_end_seq(s@),
{
    let n = s.unicode_len();
    let mut j: usize = n;
    assert(s@.subrange(0, n as int) =~= s@);
    while j > 0 && char_is_whitespace(s.get_char(j - 1))
        invariant
            n == s@.len(),
            j <= n,
            trim_end_seq(s@) == trim_end_seq(s@.subrange(0, j as int)),
        decreases j,
    {
        assert(s@.subrange(0, j as int).drop_last() =~= s@.subrange(0, j - 1));
        j = j - 1;
    }
    s.substring_char(0, j)
}

/// `str::trim`.
pub fn trim_str(s: &str) -> (r: &str)
    ensures
        r@ == trim_seq(s@),
{
    trim_end_str(trim_start_str(s))
}

/// `s` without every leading occurrence of `c` (`trim_start_matches` with a char).
pub open spec fn strip_leading_seq(s: Seq<char>, c: char) -> Seq<char>
    decreases s.len(),
{
    if s.len() > 0 && s[0] == c {
        strip_leading_seq(s.drop_first(), c)
    } else {
        s
    }
}

/// `str::trim_start_matches(c)` for one character `c`.
pub fn strip_leading_char(s: &str, c: char) -> (r: &str)
    ensures
        r@ == strip_leading_seq(s@, c),
{
    let n = s.unicode_len();
    let mut i: usize = 0;
    assert(s@.subrange(0, n as int) =~= s@);
    while i < n && s.get_char(i) == c
        invariant
            n == s@.len(),
            i <= n,
            strip_leading_seq(s@, c) == strip_leading_seq(s@.subrange(i as int, n as int), c),
        decreases n - i,
    {
        assert(s@.subrange(i as int, n as int).drop_first() =~= s@.subrange(
            i + 1,
            n as int,
        ));
        i = i + 1;
    }
    s.substring_char(i, n)
}

// ---------------------------------------------------------------------------
// ASCII classes
// ---------------------------------------------------------------------------

pub open spec fn is_ascii_digit(c: char) -> bool {
    '0' <= c && c <= '9'
}

pub open spec fn is_ascii_upper(c: char) -> bool {
    'A' <= c && c <= 'Z'
}

pub open spec fn is_ascii_lower(c: char) -> bool {
    'a' <= c && c <= 'z'
}

pub open spec fn is_ascii_alpha(c: char) -> bool {
    is_ascii_upper(c) || is_ascii_lower(c)
}

pub open spec fn is_ascii_alnum(c: char) -> bool {
    is_ascii_alpha(c) || is_ascii_digit(c)
}

/// `char::is_ascii_alphanumeric`.
pub fn char_is_ascii_alnum(c: char) -> (r: bool)
    ensures
        r == is_ascii_alnum(c),
{
    ('A' <= c && c <= 'Z') || ('a' <= c && c <= 'z') || ('0' <= c && c <= '9')
}

/// `char::is_ascii_alphabetic`.
pub fn char_is_ascii_alpha(c: char) -> (r: bool)
    ensures
        r == is_ascii_alpha(c),
{
    ('A' <= c && c <= 'Z') || ('a' <= c && c <= 'z')
}

/// The lower-case form of an ASCII letter; every other character is kept.
pub open spec fn ascii_lower(c: char) -> char {
    if is_ascii_upper(c) {
        ((c as u32) + 32) as char
    } else {
        c
    }
}

/// The upper-case form of an ASCII letter; every other character is kept.
pub open spec fn ascii_upper(c: char) -> char {
    if is_ascii_lower(c) {
        ((c as u32) - 32) as char
    } else {
        c
    }
}

/// `char::to_ascii_lowercase`.
pub fn char_to_ascii_lower(c: char) -> (r: char)
    ensures
        r == ascii_lower(c),
{
    if 'A' <= c && c <= 'Z' {
        let v = (c as u32) + 32;
        assert(0x61 <= v <= 0x7a);
        char_from_ascii(v as u8)
    } else {
        c
    }
}

/// `char::to_ascii_uppercase`.
pub fn char_to_ascii_upper(c: char) -> (r: char)
    ensures
        r == ascii_upper(c),
{
    if 'a' <= c && c <= 'z' {
        let v = (c as u32) - 32;
        assert(0x41 <= v <= 0x5a);
        char_from_ascii(v as u8)
    } else {
        c
    }
}

/// The character whose code is the ASCII byte `b`.
pub fn char_from_ascii(b: u8) -> (r: char)
    requires
        b < 128,
    ensures
        r as u32 == b as u32,
        r == (b as u32) as char,
{
    b as char
}

// ---------------------------------------------------------------------------
// Decimal text
// ---------------------------------------------------------------------------

/// The ASCII digit for `d < 10`.
pub open spec fn digit_char(d: nat) -> char {
    ((48 + d) as u32) as char
}

/// The value of an ASCII digit.
pub open spec fn digit_value(c: char) -> int {
    (c as u32) as int - 48
}

/// The canonical decimal text of `n`, without sign or leading zeros.
pub open spec fn dec_seq(n: nat) -> Seq<char>
    decreases n,
{
    if n < 10 {
        seq![digit_char(n)]
    } else {
        dec_seq(n / 10).push(digit_char(n % 10))
    }
}

/// Reading back the decimal text of `n` gives `n`.
pub proof fn lemma_dec_seq_value(n: nat)
    ensures
        all_digits(dec_seq(n)),
        dec_seq(n).len() > 0,
        digits_val(dec_seq(n)) == n,
    decreases n,
{
    let d = n % 10;
    assert(digit_value(digit_char(d)) == d);
    if n >= 10 {
        lemma_dec_seq_value(n / 10);
        let s = dec_seq(n);
        assert(s.drop_last() =~= dec_seq(n / 10));
        assert forall|i: int| 0 <= i < s.len() implies #[trigger] is_ascii_digit(s[i]) by {
            if i < s.len() - 1 {
                assert(s[i] == dec_seq(n / 10)[i]);
            }
        }
        assert(s.last() == digit_char(d));
        assert(digits_val(s) == digits_val(dec_seq(n / 10)) * 10 + digit_value(digit_char(d)));
        assert((n / 10) * 10 + n % 10 == n);
    } else {
        let s = dec_seq(n);
        assert(s.drop_last() =~= Seq::<char>::empty());
        assert(digits_val(s) == digits_val(s.drop_last()) * 10 + digit_value(s.last()));
    }
}

/// The decimal text of a number reads back as that number, surrounding
/// whitespace trimming included.
pub proof fn lemma_parse_dec_seq(n: nat, max: int)
    requires
        n <= max,
    ensures
        trim_seq(dec_seq(n)) == dec_seq(n),
        parse_unsigned_spec(trim_seq(dec_seq(n)), max) == Some(n as int),
{
    lemma_dec_seq_value(n);
    let s = dec_seq(n);
    assert(is_ascii_digit(s[0]));
    assert(is_ascii_digit(s.last()));
    assert(!is_ws(s[0]));
    assert(trim_start_seq(s) == s);
    assert(!is_ws(s.last()));
    assert(trim_end_seq(s) == s);
}

/// Different numbers have different decimal texts.
pub proof fn lemma_dec_seq_injective(a: nat, b: nat)
    requires
        dec_seq(a) == dec_seq(b),
    ensures
        a == b,
{
    lemma_dec_seq_value(a);
    lemma_dec_seq_value(b);
}

/// Appends the decimal text of `n`.
pub fn push_decimal(s: &mut String, n: u64)
    ensures
        final(s)@ == old(s)@ + dec_seq(n as nat),
    decreases n,
{
    if n >= 10 {
        push_decimal(s, n / 10);
    }
    let d = (n % 10) as u8;
    let c = char_from_ascii(48 + d);
    push_char(s, c);
    assert(final(s)@ =~= old(s)@ + dec_seq(n as nat));
}

/// `u64::to_string`.
pub fn u64_to_decimal(n: u64) -> (r: String)
    ensures
        r@ == dec_seq(n as nat),
{
    let mut s = String::new();
    push_decimal(&mut s, n);
    assert(s@ =~= dec_seq(n as nat));
    s
}

/// Every character of `s` is an ASCII digit.
pub open spec fn all_digits(s: Seq<char>) -> bool {
    forall|i: int| 0 <= i < s.len() ==> #[trigger] is_ascii_digit(s[i])
}

/// The value of a run of ASCII digits.
pub open spec fn digits_val(s: Seq<char>) -> int
    decreases s.len(),
{
    if s.len() == 0 {
        0
    } else {
        digits_val(s.drop_last()) * 10 + digit_value(s.last())
    }
}

/// The magnitude that `str::parse` reads for an unsigned integer type:
/// an optional `+`, then one or more ASCII digits.
pub open spec fn unsigned_text_value(s: Seq<char>) -> Option<int> {
    let body = if s.len() > 0 && s[0] == '+' {
        s.drop_first()
    } else {
        s
    };
    if body.len() > 0 && all_digits(body) {
        Some(digits_val(body))
    } else {
        None
    }
}

/// What `str::parse` gives for an unsigned integer type whose largest value is `max`.
pub open spec fn parse_unsigned_spec(s: Seq<char>, max: int) -> Option<int> {
    match unsigned_text_value(s) {
        Some(v) => if v <= max {
            Some(v)
        } else {
            None
        },
        None => None,
    }
}

/// What `str::parse::<i32>` gives: an optional `+` or `-`, then one or more
/// ASCII digits, the value within `i32`.
pub open spec fn parse_i32_spec(s: Seq<char>) -> Option<int> {
    if s.len() > 0 && s[0] == '-' {
        let body = s.drop_first();
        if body.len() > 0 && all_digits(body) && digits_val(body) <= 0x8000_0000 {
            Some(-digits_val(body))
        } else {
            None
        }
    } else {
        parse_unsigned_spec(s, 0x7fff_ffff)
    }
}

proof fn lemma_digits_val_nonneg(s: Seq<char>)
    requires
        all_digits(s),
    ensures
        digits_val(s) >= 0,
    decreases s.len(),
{
    if s.len() > 0 {
        assert(is_ascii_digit(s[s.len() - 1]));
        lemma_digits_val_nonneg(s.drop_last());
    }
}

/// A longer run of digits is worth at least as much as any of its prefixes.
proof fn lemma_digits_val_prefix(s: Seq<char>, k: int)
    requires
        all_digits(s),
        0 <= k <= s.len(),
    ensures
        digits_val(s.subrange(0, k)) <= digits_val(s),
    decreases s.len() - k,
{
    if k < s.len() {
        lemma_digits_val_prefix(s, k + 1);
        let t = s.subrange(0, k + 1);
        assert(t.drop_last() =~= s.subrange(0, k));
        assert(is_ascii_digit(t[k]));
        lemma_digits_val_nonneg(s.subrange(0, k));
    } else {
        assert(s.subrange(0, k) =~= s);
    }
}

/// Reads the digits of `s` from index `start` to the end as a number not above
/// `max`; `None` when one of them is not a digit, there are none, or the
/// value is larger.
fn digits_from(s: &str, start: usize, max: u64) -> (r: Option<u64>)
    requires
        start <= s@.len(),
    ensures
        ({
            let body = s@.subrange(start as int, s@.len() as int);
            match r {
                Some(v) => body.len() > 0 && all_digits(body) && v == digits_val(body) && v
                    <= max,
                None => !(body.len() > 0 && all_digits(body) && digits_val(body) <= max),
            }
        }),
{
    let n = s.unicode_len();
    let ghost body = s@.subrange(start as int, n as int);
    if start == n {
        return None;
    }
    let mut acc: u128 = 0;
    let mut i: usize = start;
    while i < n
        invariant
            n == s@.len(),
            start < n,
            start <= i <= n,
            body == s@.subrange(start as int, n as int),
            all_digits(s@.subrange(start as int, i as int)),
            acc == digits_val(s@.subrange(start as int, i as int)),
            acc <= max,
        decreases n - i,
    {
        let c = s.get_char(i);
        if !('0' <= c && c <= '9') {
            assert(body[i - start] == c);
            assert(!is_ascii_digit(body[i - start]));
            return None;
        }
        let d = (c as u32 - 48) as u128;
        let ghost prev = s@.subrange(start as int, i as int);
        let ghost next = s@.subrange(start as int, i + 1);
        assert(next.drop_last() =~= prev);
        assert(next.last() == c);
        acc = acc * 10 + d;
        assert(all_digits(next)) by {
            assert forall|j: int| 0 <= j < next.len() implies #[trigger] is_ascii_digit(
                next[j],
            ) by {
                if j < prev.len() {
                    assert(next[j] == prev[j]);
                }
            }
        }
        i = i + 1;
        if acc > max as u128 {
            proof {
                if all_digits(body) {
                    assert(body.subrange(0, i - start) =~= next);
                    lemma_digits_val_prefix(body, i - start);
                }
            }
            return None;
        }
    }
    assert(s@.subrange(start as int, i as int) =~= body);
    Some(acc as u64)
}

/// `str::parse` for an unsigned integer type whose largest value is `max`.
pub fn parse_unsigned(s: &str, max: u64) -> (r: Option<u64>)
    ensures
        match r {
            Some(v) => parse_unsigned_spec(s@, max as int) == Some(v as int),
            None => parse_unsigned_spec(s@, max as int) is None,
        },
{
    let n = s.unicode_len();
    let start: usize = if n > 0 && s.get_char(0) == '+' {
        1
    } else {
        0
    };
    proof {
        if n > 0 && s@[0] == '+' {
            assert(s@.drop_first() =~= s@.subrange(1, n as int));
        } else {
            assert(s@ =~= s@.subrange(0, n as int));
        }
    }
    digits_from(s, start, max)
}

/// `str::parse::<u32>`.
pub fn parse_u32(value: &str) -> (r: Option<u32>)
    ensures
        match r {
            Some(v) => parse_unsigned_spec(value@, u32::MAX as int) == Some(v as int),
            None => parse_unsigned_spec(value@, u32::MAX as int) is None,
        },
{
    match parse_unsigned(value, 0xffff_ffff) {
        Some(v) => Some(v as u32),
        None => None,
    }
}

/// `str::parse::<u16>`.
pub fn parse_u16(value: &str) -> (r: Option<u16>)
    ensures
        match r {
            Some(v) => parse_unsigned_spec(value@, u16::MAX as int) == Some(v as int),
            None => parse_unsigned_spec(value@, u16::MAX as int) is None,
        },
{
    match parse_unsigned(value, 0xffff) {
        Some(v) => Some(v as u16),
        None => None,
    }
}

/// `str::parse::<u8>`.
pub fn parse_u8(value: &str) -> (r: Option<u8>)
    ensures
        match r {
            Some(v) => parse_unsigned_spec(value@, u8::MAX as int) == Some(v as int),
            None => parse_unsigned_spec(value@, u8::MAX as int) is None,
        },
{
    match parse_unsigned(value, 0xff) {
        Some(v) => Some(v as u8),
        None => None,
    }
}

/// `str::parse::<i32>`.
pub fn parse_i32(value: &str) -> (r: Option<i32>)
    ensures
        match r {
            Some(v) => parse_i32_spec(value@) == Some(v as int),
            None => parse_i32_spec(value@) is None,
        },
{
    let n = value.unicode_len();
    if n > 0 && value.get_char(0) == '-' {
        assert(value@.drop_first() =~= value@.subrange(1, n as int));
        match digits_from(value, 1, 0x8000_0000) {
            Some(m) => {
                let v: i64 = -(m as i64);
                Some(v as i32)
            },
            None => None,
        }
    } else {
        match parse_unsigned(value, 0x7fff_ffff) {
            Some(v) => Some(v as i32),
            None => None,
        }
    }
}

// ---------------------------------------------------------------------------
// Hexadecimal text
// ---------------------------------------------------------------------------

/// The value of a hexadecimal digit, either case.
pub open spec fn hex_digit_value(c: char) -> Option<int> {
    if '0' <= c && c <= '9' {
        Some((c as u32) as int - 48)
    } else if 'a' <= c && c <= 'f' {
        Some((c as u32) as int - 87)
    } else if 'A' <= c && c <= 'F' {
        Some((c as u32) as int - 55)
    } else {
        None
    }
}

pub open spec fn is_hex_digit(c: char) -> bool {
    hex_digit_value(c) is Some
}

pub open spec fn all_hex(s: Seq<char>) -> bool {
    forall|i: int| 0 <= i < s.len() ==> #[trigger] is_hex_digit(s[i])
}

/// The value of a run of hexadecimal digits.
pub open spec fn hex_val(s: Seq<char>) -> int
    decreases s.len(),
{
    if s.len() == 0 {
        0
    } else {
        hex_val(s.drop_last()) * 16 + hex_digit_value(s.last()).unwrap()
    }
}

/// What `u32::from_str_radix(s, 16)` gives: an optional `+`, then one or more
/// hexadecimal digits, the value within `u32`.
pub open spec fn parse_hex_u32_spec(s: Seq<char>) -> Option<int> {
    let body = if s.len() > 0 && s[0] == '+' {
        s.drop_first()
    } else {
        s
    };
    if body.len() > 0 && all_hex(body) && hex_val(body) <= u32::MAX {
        Some(hex_val(body))
    } else {
        None
    }
}

proof fn lemma_hex_val_nonneg(s: Seq<char>)
    requires
        all_hex(s),
    ensures
        hex_val(s) >= 0,
    decreases s.len(),
{
    if s.len() > 0 {
        assert(is_hex_digit(s[s.len() - 1]));
        lemma_hex_val_nonneg(s.drop_last());
    }
}

proof fn lemma_hex_val_prefix(s: Seq<char>, k: int)
    requires
        all_hex(s),
        0 <= k <= s.len(),
    ensures
        hex_val(s.subrange(0, k)) <= hex_val(s),
    decreases s.len() - k,
{
    if k < s.len() {
        lemma_hex_val_prefix(s, k + 1);
        let t = s.subrange(0, k + 1);
        assert(t.drop_last() =~= s.subrange(0, k));
        assert(is_hex_digit(t[k]));
        lemma_hex_val_nonneg(s.subrange(0, k));
    } else {
        assert(s.subrange(0, k) =~= s);
    }
}

/// The value of one hexadecimal digit character.
pub fn hex_digit(c: char) -> (r: Option<u32>)
    ensures
        match r {
            Some(v) => hex_digit_value(c) == Some(v as int),
            None => hex_digit_value(c) is None,
        },
{
    if '0' <= c && c <= '9' {
        Some(c as u32 - 48)
    } else if 'a' <= c && c <= 'f' {
        Some(c as u32 - 87)
    } else if 'A' <= c && c <= 'F' {
        Some(c as u32 - 55)
    } else {
        None
    }
}

/// Reads the hexadecimal digits of `s` from index `start` to the end as a
/// `u32`; `None` when one of them is not a hexadecimal digit, there are none,
/// or the value does not fit.
fn hex_digits_from(s: &str, start: usize) -> (r: Option<u32>)
    requires
        start <= s@.len(),
    ensures
        ({
            let body = s@.subrange(start as int, s@.len() as int);
            match r {
                Some(v) => body.len() > 0 && all_hex(body) && v == hex_val(body),
                None => !(body.len() > 0 && all_hex(body) && hex_val(body) <= u32::MAX),
            }
        }),
{
    let n = s.unicode_len();
    let ghost body = s@.subrange(start as int, n as int);
    if start == n {
        return None;
    }
    let mut acc: u64 = 0;
    let mut i: usize = start;
    while i < n
        invariant
            n == s@.len(),
            start < n,
            start <= i <= n,
            body == s@.subrange(start as int, n as int),
            all_hex(s@.subrange(start as int, i as int)),
            acc == hex_val(s@.subrange(start as int, i as int)),
            acc <= u32::MAX,
        decreases n - i,
    {
        let c = s.get_char(i);
        let d = match hex_digit(c) {
            Some(d) => d,
            None => {
                assert(body[i - start] == c);
                assert(!is_hex_digit(body[i - start]));
                return None;
            },
        };
        let ghost prev = s@.subrange(start as int, i as int);
        let ghost next = s@.subrange(start as int, i + 1);
        assert(next.drop_last() =~= prev);
        assert(next.last() == c);
        acc = acc * 16 + d as u64;
        assert(all_hex(next)) by {
            assert forall|j: int| 0 <= j < next.len() implies #[trigger] is_hex_digit(
                next[j],
            ) by {
                if j < prev.len() {
                    assert(next[j] == prev[j]);
                }
            }
        }
        i = i + 1;
        if acc > 0xffff_ffff {
            proof {
                if all_hex(body) {
                    assert(body.subrange(0, i - start) =~= next);
                    lemma_hex_val_prefix(body, i - start);
                }
            }
            return None;
        }
    }
    assert(s@.subrange(start as int, i as int) =~= body);
    Some(acc as u32)
}

/// `u32::from_str_radix(s, 16)`.
pub fn parse_hex_u32(s: &str) -> (r: Option<u32>)
    ensures
        match r {
            Some(v) => parse_hex_u32_spec(s@) == Some(v as int),
            None => parse_hex_u32_spec(s@) is None,
        },
{
    let n = s.unicode_len();
    let start: usize = if n > 0 && s.get_char(0) == '+' {
        1
    } else {
        0
    };
    proof {
        if n > 0 && s@[0] == '+' {
            assert(s@.drop_first() =~= s@.subrange(1, n as int));
        } else {
            assert(s@ =~= s@.subrange(0, n as int));
        }
    }
    hex_digits_from(s, start)
}

/// The upper-case hexadecimal digit for `d < 16`.
pub open spec fn hex_char(d: int) -> char {
    if d < 10 {
        ((48 + d) as u32) as char
    } else {
        ((55 + d) as u32) as char
    }
}

/// The two upper-case hexadecimal digits of a byte (`{:02X}`).
pub open spec fn hex2_seq(b: int) -> Seq<char> {
    seq![hex_char(b / 16), hex_char(b % 16)]
}

/// The upper-case hexadecimal digit character for `d`.
pub fn hex_digit_char(d: u32) -> (r: char)
    requires
        d < 16,
    ensures
        r == hex_char(d as int),
{
    if d < 10 {
        char_from_ascii((48 + d) as u8)
    } else {
        char_from_ascii((55 + d) as u8)
    }
}

/// Appends a byte as two upper-case hexadecimal digits.
pub fn push_hex2(s: &mut String, b: u32)
    requires
        b < 256,
    ensures
        final(s)@ == old(s)@ + hex2_seq(b as int),
{
    push_char(s, hex_digit_char(b / 16));
    push_char(s, hex_digit_char(b % 16));
    assert(final(s)@ =~= old(s)@ + hex2_seq(b as int));
}


/// What trimming the start leaves: a suffix of the text, preceded only by
/// whitespace, that does not itself start with whitespace.
pub proof fn lemma_trim_start_shape(s: Seq<char>)
    ensures
        ({
            let r = trim_start_seq(s);
            &&& r.len() <= s.len()
            &&& r == s.subrange(s.len() - r.len(), s.len() as int)
            &&& forall|i: int| 0 <= i < s.len() - r.len() ==> is_ws(#[trigger] s[i])
            &&& r.len() > 0 ==> !is_ws(r[0])
        }),
    decreases s.len(),
{
    if s.len() > 0 && is_ws(s[0]) {
        let t = s.drop_first();
        lemma_trim_start_shape(t);
        let r = trim_start_seq(t);
        assert(t.subrange(t.len() - r.len(), t.len() as int) =~= s.subrange(s.len() - r.len(), s.len() as int));
        assert forall|i: int| 0 <= i < s.len() - r.len() implies is_ws(#[trigger] s[i]) by {
            if i > 0 {
                assert(s[i] == t[i - 1]);
            }
        }
    } else {
        assert(s.subrange(0, s.len() as int) =~= s);
    }
}

/// What trimming the end leaves: a prefix of the text, followed only by
/// whitespace, that does not itself end with whitespace.
pub proof fn lemma_trim_end_shape(s: Seq<char>)
    ensures
        ({
            let r = trim_end_seq(s);
            &&& r.len() <= s.len()
            &&& r == s.subrange(0, r.len() as int)
            &&& forall|i: int| r.len() <= i < s.len() ==> is_ws(#[trigger] s[i])
            &&& r.len() > 0 ==> !is_ws(r.last())
        }),
    decreases s.len(),
{
    if s.len() > 0 && is_ws(s.last()) {
        let t = s.drop_last();
        lemma_trim_end_shape(t);
        let r = trim_end_seq(t);
        assert(t.subrange(0, r.len() as int) =~= s.subrange(0, r.len() as int));
        assert forall|i: int| r.len() <= i < s.len() implies is_ws(#[trigger] s[i]) by {
            if i < s.len() - 1 {
                assert(s[i] == t[i]);
            }
        }
    } else {
        assert(s.subrange(0, s.len() as int) =~= s);
    }
}

} // verus!
