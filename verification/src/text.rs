//! Text helpers: decimal digits, concatenation, order, search, trimming,
//! the text of byte fields, and the reading of numbers.

use vstd::prelude::*;
use vstd::slice::slice_subrange;
use vstd::std_specs::iter::IteratorSpec;
use vstd::string::{StrSliceExecFns, StringExecFns};
use vstd::utf8::{
    decode_utf8, encode_utf8, encode_utf8_decode_utf8, encode_utf8_valid_utf8, is_ascii_chars,
    is_ascii_chars_encode_utf8, valid_utf8,
};

verus! {

/// The character of a decimal digit.
pub open spec fn digit_char(d: int) -> char
    recommends
        0 <= d < 10,
{
    ((48 + d) as u8) as char
}

/// The decimal digits of `n`, most significant first, without padding.
pub open spec fn decimal_digits(n: nat) -> Seq<char>
    decreases n,
{
    if n < 10 {
        seq![digit_char(n as int)]
    } else {
        decimal_digits(n / 10).push(digit_char((n % 10) as int))
    }
}

/// The one-character text of a decimal digit.
pub fn digit_str(d: u64) -> (s: &'static str)
    requires
        d < 10,
    ensures
        s@ == seq![digit_char(d as int)],
{
    proof {
        reveal_strlit("0");
        reveal_strlit("1");
        reveal_strlit("2");
        reveal_strlit("3");
        reveal_strlit("4");
        reveal_strlit("5");
        reveal_strlit("6");
        reveal_strlit("7");
        reveal_strlit("8");
        reveal_strlit("9");
    }
    let s = if d == 0 {
        "0"
    } else if d == 1 {
        "1"
    } else if d == 2 {
        "2"
    } else if d == 3 {
        "3"
    } else if d == 4 {
        "4"
    } else if d == 5 {
        "5"
    } else if d == 6 {
        "6"
    } else if d == 7 {
        "7"
    } else if d == 8 {
        "8"
    } else {
        "9"
    };
    assert(s@ =~= seq![digit_char(d as int)]);
    s
}

/// Writes a number in decimal.
pub fn decimal(v: u64) -> (s: String)
    ensures
        s@ == decimal_digits(v as nat),
    decreases v,
{
    if v < 10 {
        String::from_str(digit_str(v))
    } else {
        let mut s = decimal(v / 10);
        s.append(digit_str(v % 10));
        assert(s@ =~= decimal_digits(v as nat));
        s
    }
}

/// Joins two texts.
pub fn join2(a: &str, b: &str) -> (s: String)
    ensures
        s@ == a@ + b@,
{
    let mut s = String::from_str(a);
    s.append(b);
    s
}

/// Joins three texts.
pub fn join3(a: &str, b: &str, c: &str) -> (s: String)
    ensures
        s@ == a@ + b@ + c@,
{
    let mut s = String::from_str(a);
    s.append(b);
    s.append(c);
    s
}

/// Joins four texts.
pub fn join4(a: &str, b: &str, c: &str, d: &str) -> (s: String)
    ensures
        s@ == a@ + b@ + c@ + d@,
{
    let mut s = String::from_str(a);
    s.append(b);
    s.append(c);
    s.append(d);
    s
}

/// The characters of a text.
pub fn text_chars(s: &str) -> (chars: Vec<char>)
    ensures
        chars@ == s@,
{
    let mut it = s.chars();
    let mut chars: Vec<char> = Vec::new();
    assert(it.remaining() == s@);
    loop
        invariant
            chars@ + it.remaining() == s@,
            it.obeys_prophetic_iter_laws(),
        ensures
            chars@ == s@,
        decreases s@.len() - chars@.len(),
    {
        let ghost before = it.remaining();
        match it.next() {
            Some(c) => {
                chars.push(c);
                assert(chars@ + it.remaining() =~= s@);
            },
            None => {
                assert(chars@ + before =~= chars@);
                break;
            },
        }
    }
    chars
}

/// Whether `a` comes before `b` or equals it, in the lexicographic order
/// of the characters' code points.
pub open spec fn lex_le(a: Seq<char>, b: Seq<char>) -> bool
    decreases a.len(),
{
    if a.len() == 0 {
        true
    } else if b.len() == 0 {
        false
    } else if a[0] != b[0] {
        (a[0] as u32) < (b[0] as u32)
    } else {
        lex_le(a.skip(1), b.skip(1))
    }
}

/// The order of two texts is that of what follows a common prefix.
pub proof fn lemma_lex_le_skip(a: Seq<char>, b: Seq<char>, i: int)
    requires
        0 <= i <= a.len(),
        i <= b.len(),
        forall|k: int| 0 <= k < i ==> a[k] == b[k],
    ensures
        lex_le(a, b) == lex_le(a.skip(i), b.skip(i)),
    decreases i,
{
    if i == 0 {
        assert(a.skip(0) =~= a);
        assert(b.skip(0) =~= b);
    } else {
        assert(a[0] == b[0]);
        let a1 = a.skip(1);
        let b1 = b.skip(1);
        assert forall|k: int| 0 <= k < i - 1 implies a1[k] == b1[k] by {
            assert(a1[k] == a[k + 1]);
            assert(b1[k] == b[k + 1]);
        }
        lemma_lex_le_skip(a1, b1, i - 1);
        assert(a1.skip(i - 1) =~= a.skip(i));
        assert(b1.skip(i - 1) =~= b.skip(i));
    }
}

/// Compares two runs of characters as `lex_le` says.
pub fn chars_le(a: &[char], b: &[char]) -> (le: bool)
    ensures
        le == lex_le(a@, b@),
{
    let n: usize = a.len();
    let m: usize = b.len();
    let mut i: usize = 0;
    while i < n && i < m
        invariant
            n == a@.len(),
            m == b@.len(),
            i <= n,
            i <= m,
            forall|k: int| 0 <= k < i ==> a@[k] == b@[k],
        decreases n - i,
    {
        let x: char = a[i];
        let y: char = b[i];
        if x != y {
            proof {
                lemma_lex_le_skip(a@, b@, i as int);
            }
            return (x as u32) < (y as u32);
        }
        i = i + 1;
    }
    proof {
        lemma_lex_le_skip(a@, b@, i as int);
    }
    i == n
}

/// Compares two texts as `lex_le` says.
pub fn text_le(a: &str, b: &str) -> (le: bool)
    ensures
        le == lex_le(a@, b@),
{
    let x = text_chars(a);
    let y = text_chars(b);
    chars_le(x.as_slice(), y.as_slice())
}

/// Whether the character occurs in the text.
pub fn has_char(s: &str, c: char) -> (found: bool)
    ensures
        found == s@.contains(c),
{
    let chars = text_chars(s);
    let n: usize = chars.len();
    let mut i: usize = 0;
    while i < n
        invariant
            n == chars@.len(),
            chars@ == s@,
            i <= n,
            forall|k: int| 0 <= k < i ==> s@[k] != c,
        decreases n - i,
    {
        if chars[i] == c {
            return true;
        }
        i = i + 1;
    }
    false
}

/// Whether `needle` occurs in `hay` as a run of consecutive characters.
pub open spec fn has_substring(hay: Seq<char>, needle: Seq<char>) -> bool {
    exists|i: int|
        0 <= i && i + needle.len() <= hay.len() && #[trigger] hay.subrange(
            i,
            i + needle.len(),
        ) == needle
}

/// Whether the pattern occurs in the run of characters.
pub fn chars_contain(hay: &[char], needle: &[char]) -> (found: bool)
    ensures
        found == has_substring(hay@, needle@),
{
    let n: usize = hay.len();
    let m: usize = needle.len();
    if m > n {
        return false;
    }
    let mut i: usize = 0;
    while i <= n - m
        invariant
            n == hay@.len(),
            m == needle@.len(),
            m <= n,
            i <= n - m + 1,
            forall|k: int| 0 <= k < i ==> #[trigger] hay@.subrange(k, k + m) != needle@,
        decreases n - m + 1 - i,
    {
        let mut j: usize = 0;
        while j < m && hay[i + j] == needle[j]
            invariant
                n == hay@.len(),
                m == needle@.len(),
                i + m <= n,
                j <= m,
                forall|t: int| 0 <= t < j ==> hay@[i + t] == needle@[t],
            decreases m - j,
        {
            j = j + 1;
        }
        if j == m {
            assert(hay@.subrange(i as int, i + m) =~= needle@);
            return true;
        }
        assert(hay@.subrange(i as int, i + m)[j as int] != needle@[j as int]);
        i = i + 1;
    }
    false
}

/// Whether the pattern occurs in the text.
pub fn contains(hay: &str, needle: &str) -> (found: bool)
    ensures
        found == has_substring(hay@, needle@),
{
    let h = text_chars(hay);
    let p = text_chars(needle);
    chars_contain(h.as_slice(), p.as_slice())
}

/// The lowercase form of a text, as the standard library computes it.
pub uninterp spec fn lowercase_of(s: Seq<char>) -> Seq<char>;

/// `str::to_lowercase`: the result is a function of the text alone.
pub assume_specification[ str::to_lowercase ](s: &str) -> (lower: String)
    ensures
        lower@ == lowercase_of(s@),
;

/// Whether a character has the Unicode property `White_Space`.
pub open spec fn is_whitespace(c: char) -> bool {
    let u = c as u32;
    (0x09 <= u <= 0x0d) || u == 0x20 || u == 0x85 || u == 0xa0 || u == 0x1680 || (0x2000 <= u
        <= 0x200a) || u == 0x2028 || u == 0x2029 || u == 0x202f || u == 0x205f || u == 0x3000
}

/// Whether a character is whitespace.
pub fn is_space(c: char) -> (space: bool)
    ensures
        space == is_whitespace(c),
{
    let u: u32 = c as u32;
    (0x09 <= u && u <= 0x0d) || u == 0x20 || u == 0x85 || u == 0xa0 || u == 0x1680 || (0x2000 <= u
        && u <= 0x200a) || u == 0x2028 || u == 0x2029 || u == 0x202f || u == 0x205f || u == 0x3000
}

/// The text without its leading whitespace.
pub open spec fn trim_start_of(s: Seq<char>) -> Seq<char>
    decreases s.len(),
{
    if s.len() > 0 && is_whitespace(s[0]) {
        trim_start_of(s.skip(1))
    } else {
        s
    }
}

/// The text without its trailing whitespace.
pub open spec fn trim_end_of(s: Seq<char>) -> Seq<char>
    decreases s.len(),
{
    if s.len() > 0 && is_whitespace(s.last()) {
        trim_end_of(s.drop_last())
    } else {
        s
    }
}

/// The text without leading and trailing whitespace.
pub open spec fn trimmed(s: Seq<char>) -> Seq<char> {
    trim_end_of(trim_start_of(s))
}

/// The text without its leading whitespace is what follows the first
/// `i` characters, if those are whitespace.
pub proof fn lemma_trim_start(s: Seq<char>, i: int)
    requires
        0 <= i <= s.len(),
        forall|k: int| 0 <= k < i ==> is_whitespace(s[k]),
    ensures
        trim_start_of(s) == trim_start_of(s.skip(i)),
    decreases i,
{
    if i == 0 {
        assert(s.skip(0) =~= s);
    } else {
        let t = s.skip(1);
        assert forall|k: int| 0 <= k < i - 1 implies is_whitespace(t[k]) by {
            assert(t[k] == s[k + 1]);
        }
        lemma_trim_start(t, i - 1);
        assert(t.skip(i - 1) =~= s.skip(i));
    }
}

/// The text without its trailing whitespace is that of its first `j`
/// characters, if those that follow are whitespace.
pub proof fn lemma_trim_end(s: Seq<char>, j: int)
    requires
        0 <= j <= s.len(),
        forall|k: int| j <= k < s.len() ==> is_whitespace(s[k]),
    ensures
        trim_end_of(s) == trim_end_of(s.take(j)),
    decreases s.len() - j,
{
    if j == s.len() {
        assert(s.take(j) =~= s);
    } else {
        let t = s.drop_last();
        lemma_trim_end(t, j);
        assert(t.take(j) =~= s.take(j));
    }
}

/// The text without the whitespace around it.
pub fn trimmed_text(text: &str) -> (inner: String)
    ensures
        inner@ == trimmed(text@),
{
    let chars = text_chars(text);
    let n: usize = chars.len();
    let mut start: usize = 0;
    while start < n && is_space(chars[start])
        invariant
            n == chars@.len(),
            start <= n,
            forall|k: int| 0 <= k < start ==> is_whitespace(chars@[k]),
        decreases n - start,
    {
        start = start + 1;
    }
    let ghost rest = chars@.skip(start as int);
    let mut end: usize = n;
    while end > start && is_space(chars[end - 1])
        invariant
            n == chars@.len(),
            start <= end <= n,
            rest == chars@.skip(start as int),
            forall|k: int| end - start <= k < rest.len() ==> is_whitespace(rest[k]),
        decreases end,
    {
        end = end - 1;
    }
    proof {
        lemma_trim_start(chars@, start as int);
        assert(trim_start_of(rest) == rest);
        lemma_trim_end(rest, end - start);
        let kept = rest.take(end - start);
        assert(trim_end_of(kept) == kept);
        assert(kept =~= text@.subrange(start as int, end as int));
    }
    String::from_str(text.substring_char(start, end))
}

/// The text that a lossy UTF-8 decoding of the bytes gives.
pub uninterp spec fn lossy_text(bytes: Seq<u8>) -> Seq<char>;

/// `String::from_utf8_lossy`: the result is a function of the bytes alone,
/// and for well-formed UTF-8 it is the decoded text.
#[verifier::external_body]
pub(crate) fn from_utf8_lossy(bytes: &[u8]) -> (text: String)
    ensures
        text@ == lossy_text(bytes@),
        valid_utf8(bytes@) ==> text@ == decode_utf8(bytes@),
{
    String::from_utf8_lossy(bytes).into_owned()
}

/// The bytes before the first zero byte; all of them if there is none.
pub open spec fn until_nul(s: Seq<u8>) -> Seq<u8>
    decreases s.len(),
{
    if s.len() == 0 || s[0] == 0 {
        Seq::empty()
    } else {
        seq![s[0]] + until_nul(s.skip(1))
    }
}

/// `until_nul` of a buffer whose first `i` bytes are not zero.
pub proof fn lemma_until_nul_prefix(s: Seq<u8>, i: int)
    requires
        0 <= i <= s.len(),
        forall|k: int| 0 <= k < i ==> s[k] != 0,
    ensures
        until_nul(s) == s.take(i) + until_nul(s.skip(i)),
    decreases i,
{
    if i == 0 {
        assert(s.skip(0) =~= s);
        assert(s.take(0) + until_nul(s) =~= until_nul(s));
    } else {
        let t = s.skip(1);
        assert forall|k: int| 0 <= k < i - 1 implies t[k] != 0 by {
            assert(t[k] == s[k + 1]);
        }
        lemma_until_nul_prefix(t, i - 1);
        assert(t.skip(i - 1) =~= s.skip(i));
        assert(seq![s[0]] + t.take(i - 1) =~= s.take(i));
        assert(until_nul(s) =~= s.take(i) + until_nul(s.skip(i)));
    }
}

/// The text of a NUL-terminated field: the bytes before the first zero
/// byte, decoded lossily and trimmed.
pub open spec fn field_text(s: Seq<u8>) -> Seq<char> {
    trimmed(lossy_text(until_nul(s)))
}

/// Whether every byte is an ASCII character.
pub open spec fn is_ascii_bytes(b: Seq<u8>) -> bool {
    forall|i: int| 0 <= i < b.len() ==> #[trigger] b[i] < 128
}

/// The characters that ASCII bytes stand for.
pub open spec fn ascii_text(b: Seq<u8>) -> Seq<char> {
    Seq::new(b.len(), |i: int| b[i] as char)
}

/// ASCII bytes are well-formed UTF-8, and decode to their characters.
pub proof fn lemma_ascii_bytes_decode(b: Seq<u8>)
    requires
        is_ascii_bytes(b),
    ensures
        valid_utf8(b),
        decode_utf8(b) == ascii_text(b),
{
    let chars = ascii_text(b);
    assert(is_ascii_chars(chars)) by {
        assert forall|i: int| 0 <= i < chars.len() implies '\0' <= #[trigger] chars[i]
            <= '\u{7f}' by {
            assert(b[i] < 128);
        }
    }
    is_ascii_chars_encode_utf8(chars);
    assert(encode_utf8(chars) =~= b) by {
        assert forall|i: int| 0 <= i < b.len() implies encode_utf8(chars)[i] == b[i] by {
            assert(chars[i] as u8 == encode_utf8(chars)[i]);
            assert(b[i] < 128);
        }
    }
    encode_utf8_valid_utf8(chars);
    encode_utf8_decode_utf8(chars);
}

/// Whether `text` is what the NUL-terminated field `field` reads as: the
/// bytes before the first zero byte, decoded and trimmed. Bytes that are
/// well-formed UTF-8 decode to their characters, ASCII bytes one for one;
/// what other bytes decode to is fixed by the bytes alone.
pub open spec fn is_field_text(text: Seq<char>, field: Seq<u8>) -> bool {
    &&& text == field_text(field)
    &&& valid_utf8(until_nul(field)) ==> text == trimmed(decode_utf8(until_nul(field)))
    &&& is_ascii_bytes(until_nul(field)) ==> text == trimmed(ascii_text(until_nul(field)))
}

/// Reads a NUL-terminated text field: the bytes before the first zero
/// byte, or all of them, as text without the whitespace around it.
pub fn extract_ascii_string(data: &[u8]) -> (text: String)
    ensures
        text@ == field_text(data@),
        valid_utf8(until_nul(data@)) ==> text@ == trimmed(decode_utf8(until_nul(data@))),
        is_ascii_bytes(until_nul(data@)) ==> text@ == trimmed(ascii_text(until_nul(data@))),
        is_field_text(text@, data@),
{
    let n: usize = data.len();
    let mut end: usize = 0;
    while end < n && data[end] != 0
        invariant
            n == data@.len(),
            end <= n,
            forall|k: int| 0 <= k < end ==> data@[k] != 0,
        decreases n - end,
    {
        end = end + 1;
    }
    proof {
        lemma_until_nul_prefix(data@, end as int);
        assert(until_nul(data@.skip(end as int)) =~= Seq::<u8>::empty());
        assert(data@.take(end as int) + Seq::<u8>::empty() =~= data@.take(end as int));
        assert(data@.take(end as int) =~= data@.subrange(0, end as int));
        if is_ascii_bytes(until_nul(data@)) {
            lemma_ascii_bytes_decode(until_nul(data@));
        }
    }
    let head = slice_subrange(data, 0, end);
    let lossy: String = from_utf8_lossy(head);
    trimmed_text(lossy.as_str())
}

/// Whether the character is a decimal digit.
pub open spec fn is_digit(c: char) -> bool {
    48 <= c as u32 <= 57
}

/// The number that a run of decimal digits stands for.
pub open spec fn digits_value(s: Seq<char>) -> nat
    decreases s.len(),
{
    if s.len() == 0 {
        0
    } else {
        digits_value(s.drop_last()) * 10 + ((s.last() as u32 - 48) as nat)
    }
}

/// The digits of a number text: what follows one leading `+`, or the
/// whole text if there is none.
pub open spec fn number_digits(s: Seq<char>) -> Seq<char> {
    if s.len() > 0 && s[0] == '+' {
        s.skip(1)
    } else {
        s
    }
}

/// The number that a run of decimal digits stands for, if it is not
/// empty and the number is at most `max`; `None` for any other text.
pub open spec fn digits_number(d: Seq<char>, max: nat) -> Option<nat> {
    if d.len() > 0 && (forall|i: int| 0 <= i < d.len() ==> is_digit(#[trigger] d[i]))
        && digits_value(d) <= max {
        Some(digits_value(d))
    } else {
        None
    }
}

/// The number that a text stands for, as the standard library reads an
/// unsigned integer of at most `max`: one optional `+`, then at least one
/// decimal digit and nothing else; `None` for any other text and for a
/// number above `max`.
pub open spec fn number_of(s: Seq<char>, max: nat) -> Option<nat> {
    digits_number(number_digits(s), max)
}

/// A run of digits stands for at least as much as any of its prefixes.
pub proof fn lemma_digits_value_grows(s: Seq<char>, i: int)
    requires
        0 <= i <= s.len(),
        forall|k: int| 0 <= k < s.len() ==> is_digit(#[trigger] s[k]),
    ensures
        digits_value(s.take(i)) <= digits_value(s),
    decreases s.len() - i,
{
    if i == s.len() {
        assert(s.take(i) =~= s);
    } else {
        lemma_digits_value_grows(s, i + 1);
        let t = s.take(i + 1);
        assert(t.drop_last() =~= s.take(i));
        assert(is_digit(s[i]));
        assert(t.last() == s[i]);
    }
}

/// Reads a run of decimal digits that stands for at most `max`.
pub fn parse_digits(d: &[char], max: u64) -> (value: Option<u64>)
    requires
        max <= 1000000000000000000,
    ensures
        match digits_number(d@, max as nat) {
            Some(v) => value == Some(v as u64),
            None => value is None,
        },
{
    let n: usize = d.len();
    if n == 0 {
        return None;
    }
    let mut acc: u64 = 0;
    let mut i: usize = 0;
    assert(d@.take(0) =~= Seq::<char>::empty());
    while i < n
        invariant
            n == d@.len(),
            i <= n,
            max <= 1000000000000000000,
            acc <= max,
            acc == digits_value(d@.take(i as int)),
            forall|k: int| 0 <= k < i ==> is_digit(#[trigger] d@[k]),
        decreases n - i,
    {
        let c: char = d[i];
        let u: u32 = c as u32;
        if u < 48 || u > 57 {
            assert(!is_digit(d@[i as int]));
            return None;
        }
        let ghost prefix = d@.take(i + 1);
        proof {
            assert(prefix.drop_last() =~= d@.take(i as int));
            assert(prefix.last() == c);
        }
        acc = acc * 10 + (u - 48) as u64;
        assert(acc == digits_value(prefix));
        if acc > max {
            proof {
                if forall|k: int| 0 <= k < d@.len() ==> is_digit(#[trigger] d@[k]) {
                    lemma_digits_value_grows(d@, i + 1);
                    assert(digits_value(d@) > max);
                }
            }
            return None;
        }
        i = i + 1;
    }
    assert(d@.take(n as int) =~= d@);
    Some(acc)
}

/// Reads an unsigned decimal number of at most `max` from a run of
/// characters: one `+` may stand before the digits.
pub fn parse_chars(s: &[char], max: u64) -> (value: Option<u64>)
    requires
        max <= 1000000000000000000,
    ensures
        match number_of(s@, max as nat) {
            Some(v) => value == Some(v as u64),
            None => value is None,
        },
{
    let n: usize = s.len();
    let start: usize = if n > 0 && s[0] == '+' {
        1
    } else {
        0
    };
    let digits = slice_subrange(s, start, n);
    assert(digits@ =~= number_digits(s@));
    parse_digits(digits, max)
}

/// Reads an unsigned decimal number of at most `max`.
pub fn parse_number(s: &str, max: u64) -> (value: Option<u64>)
    requires
        max <= 1000000000000000000,
    ensures
        match number_of(s@, max as nat) {
            Some(v) => value == Some(v as u64),
            None => value is None,
        },
{
    let chars = text_chars(s);
    parse_chars(chars.as_slice(), max)
}

} // verus!
