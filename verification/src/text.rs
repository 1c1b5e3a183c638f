//! Text operations: byte-wise search, case folding, and decimal numbers.

use vstd::prelude::*;
use vstd::string::StrSliceExecFns;
use vstd::utf8::encode_utf8;
use std::cmp::Ordering;

verus! {

/// The UTF-8 bytes of a text.
pub open spec fn utf8(s: Seq<char>) -> Seq<u8> {
    encode_utf8(s)
}

/// `needle` occurs in `hay` at byte index `i`.
pub open spec fn occurs_at(hay: Seq<u8>, needle: Seq<u8>, i: int) -> bool {
    0 <= i && i + needle.len() <= hay.len() && hay.subrange(i, i + needle.len()) == needle
}

/// The first index from `i` on at which `needle` occurs in `hay`.
pub open spec fn find_from(hay: Seq<u8>, needle: Seq<u8>, i: int) -> Option<int>
    decreases hay.len() + 1 - i,
{
    if i < 0 || i + needle.len() > hay.len() {
        None
    } else if occurs_at(hay, needle, i) {
        Some(i)
    } else {
        find_from(hay, needle, i + 1)
    }
}

/// The byte index of the first occurrence of `needle` in `hay`, if any.
pub open spec fn find_bytes(hay: Seq<u8>, needle: Seq<u8>) -> Option<int> {
    find_from(hay, needle, 0)
}

/// `hay` begins with `needle`.
pub open spec fn starts_with_bytes(hay: Seq<u8>, needle: Seq<u8>) -> bool {
    occurs_at(hay, needle, 0)
}

/// The text `s` with every character mapped to lower case, as Unicode defines it.
pub uninterp spec fn lowercase(s: Seq<char>) -> Seq<char>;

/// Lower-cases a text with [`str::to_lowercase`] from the standard library.
///
/// The result is named by [`lowercase`] of the text; what that mapping is, the Unicode
/// case tables decide, and it is not stated here.
#[verifier::external_body]
fn to_lowercase(s: &str) -> (r: String)
    ensures
        r@ == lowercase(s@),
{
    s.to_lowercase()
}

/// Whether `needle` occurs in `hay` at byte index `i`.
fn occurs_at_exec(hay: &[u8], needle: &[u8], i: usize) -> (r: bool)
    requires
        i + needle@.len() <= hay@.len(),
    ensures
        r == occurs_at(hay@, needle@, i as int),
{
    let hay_len = hay.len();
    let mut k: usize = 0;
    while k < needle.len()
        invariant
            hay_len == hay@.len(),
            i + needle@.len() <= hay@.len(),
            k <= needle@.len(),
            forall|j: int| 0 <= j < k ==> hay@[i + j] == needle@[j],
        decreases needle.len() - k,
    {
        if hay[i + k] != needle[k] {
            proof {
                assert(hay@.subrange(i as int, i + needle@.len())[k as int] != needle@[k as int]);
            }
            return false;
        }
        k += 1;
    }
    proof {
        assert(hay@.subrange(i as int, i + needle@.len()) =~= needle@);
    }
    true
}

/// The byte index of the first occurrence of `needle` in `hay`.
fn find_in_bytes(hay: &[u8], needle: &[u8]) -> (r: Option<usize>)
    ensures
        match r {
            Some(i) => find_bytes(hay@, needle@) == Some(i as int),
            None => find_bytes(hay@, needle@).is_none(),
        },
{
    if needle.len() > hay.len() {
        return None;
    }
    let last = hay.len() - needle.len();
    let mut i: usize = 0;
    while i <= last
        invariant
            last == hay@.len() - needle@.len(),
            i <= last + 1,
            find_bytes(hay@, needle@) == find_from(hay@, needle@, i as int),
        decreases last + 1 - i,
    {
        if occurs_at_exec(hay, needle, i) {
            return Some(i);
        }
        if i == last {
            proof {
                assert(find_from(hay@, needle@, last + 1).is_none());
            }
            return None;
        }
        i += 1;
    }
    None
}

/// The byte index of the first occurrence of `needle` in `hay`, as [`str::find`] gives it.
pub fn find(hay: &str, needle: &str) -> (r: Option<usize>)
    ensures
        match r {
            Some(i) => find_bytes(utf8(hay@), utf8(needle@)) == Some(i as int),
            None => find_bytes(utf8(hay@), utf8(needle@)).is_none(),
        },
{
    find_in_bytes(hay.as_bytes(), needle.as_bytes())
}

/// Whether `needle` occurs in `hay`.
pub fn contains(hay: &str, needle: &str) -> (r: bool)
    ensures
        r == find_bytes(utf8(hay@), utf8(needle@)).is_some(),
{
    find(hay, needle).is_some()
}

/// Whether `hay` begins with `needle`.
pub fn starts_with(hay: &str, needle: &str) -> (r: bool)
    ensures
        r == starts_with_bytes(utf8(hay@), utf8(needle@)),
{
    let h = hay.as_bytes();
    let n = needle.as_bytes();
    if n.len() > h.len() {
        false
    } else {
        occurs_at_exec(h, n, 0)
    }
}

/// Checks if a `&str` contains another `&str`, ignoring case.
pub fn contains_case_insensitive(to_look_at: &str, to_find: &str) -> (r: bool)
    ensures
        r == find_bytes(utf8(lowercase(to_look_at@)), utf8(lowercase(to_find@))).is_some(),
{
    let a = to_lowercase(to_look_at);
    let b = to_lowercase(to_find);
    contains(a.as_str(), b.as_str())
}

/// Checks if a `&str` starts with another `&str`, ignoring case.
pub fn starts_with_case_insensitive(to_look_at: &str, to_find: &str) -> (r: bool)
    ensures
        r == starts_with_bytes(utf8(lowercase(to_look_at@)), utf8(lowercase(to_find@))),
{
    let a = to_lowercase(to_look_at);
    let b = to_lowercase(to_find);
    starts_with(a.as_str(), b.as_str())
}

/// Where the first occurrence of `origin` in `word` ends, counted as its byte index plus
/// the byte length of `word`; `None` when `origin` does not occur.
pub open spec fn match_end(origin: Seq<char>, word: Seq<char>) -> Option<int> {
    match find_bytes(utf8(word), utf8(origin)) {
        Some(i) => Some(i + utf8(word).len()),
        None => None,
    }
}

/// How `word_a` compares to `word_b` as a match for `origin`: a word without `origin`
/// comes after everything, the other way round before, and two words with `origin`
/// compare by [`match_end`].
pub open spec fn closest_order(origin: Seq<char>, word_a: Seq<char>, word_b: Seq<char>) -> Ordering {
    match match_end(origin, word_a) {
        None => Ordering::Greater,
        Some(va) => match match_end(origin, word_b) {
            None => Ordering::Less,
            Some(vb) => if va < vb {
                Ordering::Less
            } else if va == vb {
                Ordering::Equal
            } else {
                Ordering::Greater
            },
        },
    }
}

fn match_end_exec(origin: &str, word: &str) -> (r: Option<u128>)
    ensures
        match r {
            Some(v) => match_end(origin@, word@) == Some(v as int),
            None => match_end(origin@, word@).is_none(),
        },
{
    match find(word, origin) {
        Some(i) => Some(i as u128 + word.as_bytes().len() as u128),
        None => None,
    }
}

/// Takes a `&str` as `origin` and tests if either `word_a` or `word_b` is closer.
///
/// Normally `word_a` and `word_b` are expected to contain `origin` as substring; a word
/// that does not is sorted to the end.
pub fn closest_to_origin(origin: &str, word_a: &str, word_b: &str) -> (r: Ordering)
    ensures
        r == closest_order(origin@, word_a@, word_b@),
{
    let value_a = match match_end_exec(origin, word_a) {
        Some(v) => v,
        None => {
            return Ordering::Greater;
        },
    };
    let value_b = match match_end_exec(origin, word_b) {
        Some(v) => v,
        None => {
            return Ordering::Less;
        },
    };
    if value_a < value_b {
        Ordering::Less
    } else if value_a == value_b {
        Ordering::Equal
    } else {
        Ordering::Greater
    }
}

/// The character of a decimal digit.
pub open spec fn digit_char(d: nat) -> char {
    (48 + d) as char
}

/// The decimal representation of `n`, without leading zeros.
pub open spec fn decimal(n: nat) -> Seq<char>
    decreases n,
{
    if n < 10 {
        seq![digit_char(n)]
    } else {
        decimal(n / 10) + seq![digit_char(n % 10)]
    }
}

/// The decimal representation of `n`.
pub fn decimal_string(n: u64) -> (r: String)
    ensures
        r@ == decimal(n as nat),
{
    let mut digits: Vec<u64> = Vec::new();
    let mut m = n;
    while m >= 10
        invariant
            decimal(n as nat) == decimal(m as nat) + digits@.reverse().map_values(
                |d: u64| digit_char(d as nat),
            ),
            forall|j: int| 0 <= j < digits@.len() ==> digits@[j] < 10,
        decreases m,
    {
        let d = m % 10;
        let ghost old_digits = digits@;
        digits.push(d);
        proof {
            assert(digits@.reverse() =~= seq![d].add(old_digits.reverse()));
            assert(digits@.reverse().map_values(|d: u64| digit_char(d as nat)) =~= seq![
                digit_char(d as nat),
            ].add(old_digits.reverse().map_values(|d: u64| digit_char(d as nat))));
        }
        m = m / 10;
    }
    let table = "0123456789";
    proof {
        reveal_strlit("0123456789");
    }
    let mut r = String::from_str(table.substring_char(m as usize, m as usize + 1));
    let ghost tail = digits@.reverse().map_values(|d: u64| digit_char(d as nat));
    proof {
        assert(r@ =~= decimal(m as nat));
    }
    let mut k = digits.len();
    while k > 0
        invariant
            k <= digits@.len(),
            table@ == "0123456789"@,
            forall|j: int| 0 <= j < digits@.len() ==> digits@[j] < 10,
            tail == digits@.reverse().map_values(|d: u64| digit_char(d as nat)),
            decimal(n as nat) == decimal(m as nat) + tail,
            r@ == decimal(m as nat) + tail.take(digits@.len() - k),
        decreases k,
    {
        k -= 1;
        let d = digits[k] as usize;
        proof {
            reveal_strlit("0123456789");
        }
        r.append(table.substring_char(d, d + 1));
        proof {
            assert(tail[digits@.len() - 1 - k] == digit_char(digits@[k as int] as nat));
            assert(tail.take(digits@.len() - k) =~= tail.take(digits@.len() - 1 - k).push(
                digit_char(digits@[k as int] as nat),
            ));
        }
    }
    proof {
        assert(tail.take(digits@.len() as int) =~= tail);
    }
    r
}

/// Whether two texts are equal.
pub fn text_eq(a: &str, b: &str) -> (r: bool)
    ensures
        r == (a@ == b@),
{
    let x = a.as_bytes();
    let y = b.as_bytes();
    let r = if x.len() != y.len() {
        false
    } else {
        occurs_at_exec(x, y, 0)
    };
    proof {
        vstd::utf8::encode_utf8_decode_utf8(a@);
        vstd::utf8::encode_utf8_decode_utf8(b@);
        if r {
            assert(x@ =~= y@);
        }
        if a@ == b@ {
            assert(x@ =~= y@);
            assert(x@.subrange(0, y@.len() as int) =~= x@);
        }
    }
    r
}

/// The last index of `c` in `s`, if `c` occurs.
pub open spec fn last_index_of(s: Seq<char>, c: char) -> Option<int>
    decreases s.len(),
{
    if s.len() == 0 {
        None
    } else if s.last() == c {
        Some(s.len() - 1)
    } else {
        last_index_of(s.drop_last(), c)
    }
}

/// The last index of a character lies inside the text and holds the character.
pub proof fn lemma_last_index_of_bound(s: Seq<char>, c: char)
    ensures
        last_index_of(s, c) matches Some(i) ==> 0 <= i < s.len() && s[i] == c,
    decreases s.len(),
{
    if s.len() > 0 && s.last() != c {
        lemma_last_index_of_bound(s.drop_last(), c);
    }
}

/// Every character of `d` is an ASCII digit.
pub open spec fn all_digits(d: Seq<char>) -> bool {
    forall|i: int| 0 <= i < d.len() ==> 48 <= (#[trigger] d[i]) as u32 <= 57
}

/// The number the decimal digits `d` spell.
pub open spec fn digits_value(d: Seq<char>) -> nat
    decreases d.len(),
{
    if d.len() == 0 {
        0
    } else {
        digits_value(d.drop_last()) * 10 + (d.last() as u32 - 48) as nat
    }
}

/// The digits of a number text: all of it, or the rest after one leading `+`.
pub open spec fn unsigned_digits(s: Seq<char>) -> Seq<char> {
    if s.len() > 0 && s[0] == '+' {
        s.drop_first()
    } else {
        s
    }
}

/// The `u16` a text spells, as [`str::parse`] reads it: an optional `+`, then one or more
/// decimal digits whose value is at most 65535.
pub open spec fn parse_u16(s: Seq<char>) -> Option<u16> {
    let d = unsigned_digits(s);
    if d.len() > 0 && all_digits(d) && digits_value(d) <= 65535 {
        Some(digits_value(d) as u16)
    } else {
        None
    }
}

/// The last index of `c` in `s`.
pub fn last_index_of_char(s: &str, c: char) -> (r: Option<usize>)
    ensures
        match r {
            Some(i) => last_index_of(s@, c) == Some(i as int),
            None => last_index_of(s@, c).is_none(),
        },
{
    let n = s.unicode_len();
    let mut i = n;
    proof {
        assert(s@.take(n as int) =~= s@);
    }
    while i > 0
        invariant
            n == s@.len(),
            i <= n,
            last_index_of(s@, c) == last_index_of(s@.take(i as int), c),
        decreases i,
    {
        proof {
            assert(s@.take(i as int).drop_last() =~= s@.take(i - 1));
            assert(s@.take(i as int).last() == s@[i - 1]);
        }
        if s.get_char(i - 1) == c {
            return Some(i - 1);
        }
        i -= 1;
    }
    None
}

/// Reads a `u16` from a text the way [`str::parse`] does.
pub fn parse_u16_text(s: &str) -> (r: Option<u16>)
    ensures
        r == parse_u16(s@),
{
    let n = s.unicode_len();
    if n == 0 {
        return None;
    }
    let start: usize = if s.get_char(0) == '+' { 1 } else { 0 };
    let ghost d = unsigned_digits(s@);
    proof {
        assert(d =~= s@.subrange(start as int, n as int));
    }
    if start == n {
        return None;
    }
    let mut acc: u64 = 0;
    let mut i = start;
    while i < n
        invariant
            n == s@.len(),
            start <= i <= n,
            d == s@.subrange(start as int, n as int),
            d == unsigned_digits(s@),
            all_digits(d.take(i - start)),
            acc == if digits_value(d.take(i - start)) < 65536 {
                digits_value(d.take(i - start))
            } else {
                65536
            },
        decreases n - i,
    {
        let c = s.get_char(i);
        let v = c as u32;
        proof {
            assert(d[i - start] == c);
        }
        if v < 48 || v > 57 {
            proof {
                assert(!all_digits(d));
            }
            return None;
        }
        proof {
            assert(d.take(i + 1 - start).drop_last() =~= d.take(i - start));
            assert(d.take(i + 1 - start).last() == c);
            assert(all_digits(d.take(i + 1 - start)));
        }
        acc = acc * 10 + (v - 48) as u64;
        if acc > 65536 {
            acc = 65536;
        }
        i += 1;
    }
    proof {
        assert(d.take(n - start) =~= d);
    }
    if acc > 65535 {
        None
    } else {
        Some(acc as u16)
    }
}

/// The `u64` a text spells, as [`str::parse`] reads it: an optional `+`, then one or more
/// decimal digits whose value is at most `u64::MAX`.
pub open spec fn parse_u64(s: Seq<char>) -> Option<u64> {
    let d = unsigned_digits(s);
    if d.len() > 0 && all_digits(d) && digits_value(d) <= u64::MAX {
        Some(digits_value(d) as u64)
    } else {
        None
    }
}

/// Reads a `u64` from a text the way [`str::parse`] does.
pub fn parse_u64_text(s: &str) -> (r: Option<u64>)
    ensures
        r == parse_u64(s@),
{
    let n = s.unicode_len();
    if n == 0 {
        return None;
    }
    let start: usize = if s.get_char(0) == '+' { 1 } else { 0 };
    let ghost d = unsigned_digits(s@);
    proof {
        assert(d =~= s@.subrange(start as int, n as int));
    }
    if start == n {
        return None;
    }
    let cap: u128 = 0x1_0000_0000_0000_0000;
    let mut acc: u128 = 0;
    let mut i = start;
    while i < n
        invariant
            n == s@.len(),
            start <= i <= n,
            cap == 0x1_0000_0000_0000_0000,
            d == s@.subrange(start as int, n as int),
            d == unsigned_digits(s@),
            all_digits(d.take(i - start)),
            acc == if digits_value(d.take(i - start)) < cap {
                digits_value(d.take(i - start))
            } else {
                cap as nat
            },
        decreases n - i,
    {
        let c = s.get_char(i);
        let v = c as u32;
        proof {
            assert(d[i - start] == c);
        }
        if v < 48 || v > 57 {
            proof {
                assert(!all_digits(d));
            }
            return None;
        }
        proof {
            assert(d.take(i + 1 - start).drop_last() =~= d.take(i - start));
            assert(d.take(i + 1 - start).last() == c);
            assert(all_digits(d.take(i + 1 - start)));
        }
        acc = acc * 10 + (v - 48) as u128;
        if acc > cap {
            acc = cap;
        }
        i += 1;
    }
    proof {
        assert(d.take(n - start) =~= d);
    }
    if acc >= cap {
        None
    } else {
        Some(acc as u64)
    }
}

} // verus!
