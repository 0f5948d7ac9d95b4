//! ASCII text on the wire: whitespace-delimited words and decimal numbers.
//!
//! Everything here works on bytes. The model of a number is
//! [`decimal_value`] read from its digits and [`decimal_digits`] written to
//! them; the two are inverse to each other on canonical digit strings.

use vstd::prelude::*;
use vstd::utf8::{encode_utf8, is_ascii_chars, valid_utf8};

verus! {

/// The byte of the digit `0`.
pub const ZERO: u8 = 0x30;

/// A decimal digit, `0` to `9`.
pub open spec fn is_digit(b: u8) -> bool {
    0x30 <= b <= 0x39
}

/// A whitespace byte: space, tab, line feed, vertical tab, form feed,
/// carriage return.
pub open spec fn is_space(b: u8) -> bool {
    b == 0x20 || (0x09 <= b <= 0x0d)
}

/// Every byte of `s` is a decimal digit.
pub open spec fn all_digits(s: Seq<u8>) -> bool {
    forall|i: int| 0 <= i < s.len() ==> is_digit(#[trigger] s[i])
}

/// The number that the digits of `s` write, most significant first. The empty
/// string writes zero.
pub open spec fn decimal_value(s: Seq<u8>) -> nat
    decreases s.len(),
{
    if s.len() == 0 {
        0
    } else {
        decimal_value(s.drop_last()) * 10 + (s.last() - ZERO) as nat
    }
}

/// The digits that write `n`, without leading zeros; `0` is written `0`.
pub open spec fn decimal_digits(n: nat) -> Seq<u8>
    decreases n,
{
    if n < 10 {
        seq![(ZERO + n) as u8]
    } else {
        decimal_digits(n / 10).push((ZERO + n % 10) as u8)
    }
}

/// The first index at or after `i` that holds no whitespace, or the length.
pub open spec fn skip_spaces(s: Seq<u8>, i: int) -> int
    decreases s.len() - i,
{
    if 0 <= i < s.len() && is_space(s[i]) {
        skip_spaces(s, i + 1)
    } else {
        i
    }
}

/// The first index at or after `i` that holds whitespace, or the length.
pub open spec fn skip_word(s: Seq<u8>, i: int) -> int
    decreases s.len() - i,
{
    if 0 <= i < s.len() && !is_space(s[i]) {
        skip_word(s, i + 1)
    } else {
        i
    }
}

/// Where the first whitespace-delimited word of `s` begins.
pub open spec fn word_start(s: Seq<u8>) -> int {
    skip_spaces(s, 0)
}

/// Where the first whitespace-delimited word of `s` ends.
pub open spec fn word_end(s: Seq<u8>) -> int {
    skip_word(s, word_start(s))
}

/// The first whitespace-delimited word of `s`: empty where `s` holds
/// nothing but whitespace.
pub open spec fn first_word(s: Seq<u8>) -> Seq<u8> {
    s.subrange(word_start(s), word_end(s))
}

/// `skip_spaces` stays inside the string and walks over whitespace only.
pub proof fn lemma_skip_spaces(s: Seq<u8>, i: int)
    requires
        0 <= i <= s.len(),
    ensures
        i <= skip_spaces(s, i) <= s.len(),
        forall|k: int| i <= k < skip_spaces(s, i) ==> is_space(#[trigger] s[k]),
        skip_spaces(s, i) < s.len() ==> !is_space(s[skip_spaces(s, i)]),
    decreases s.len() - i,
{
    if i < s.len() && is_space(s[i]) {
        lemma_skip_spaces(s, i + 1);
    }
}

/// `skip_word` stays inside the string and walks over non-whitespace only.
pub proof fn lemma_skip_word(s: Seq<u8>, i: int)
    requires
        0 <= i <= s.len(),
    ensures
        i <= skip_word(s, i) <= s.len(),
        forall|k: int| i <= k < skip_word(s, i) ==> !is_space(#[trigger] s[k]),
        skip_word(s, i) < s.len() ==> is_space(s[skip_word(s, i)]),
    decreases s.len() - i,
{
    if i < s.len() && !is_space(s[i]) {
        lemma_skip_word(s, i + 1);
    }
}

/// The first word holds no whitespace, and a string without whitespace is
/// its own first word.
pub proof fn lemma_first_word(s: Seq<u8>)
    ensures
        0 <= word_start(s) <= word_end(s) <= s.len(),
        forall|k: int| 0 <= k < first_word(s).len() ==> !is_space(#[trigger] first_word(s)[k]),
        (forall|k: int| 0 <= k < s.len() ==> !is_space(#[trigger] s[k])) ==> first_word(s) == s,
{
    lemma_skip_spaces(s, 0);
    lemma_skip_word(s, word_start(s));
}

/// Finds the first whitespace-delimited word of `bytes`: the word is
/// `bytes[start..end]`.
pub fn find_first_word(bytes: &[u8]) -> (r: (usize, usize))
    ensures
        r.0 == word_start(bytes@),
        r.1 == word_end(bytes@),
        r.0 <= r.1 <= bytes@.len(),
{
    let n: usize = bytes.len();
    let mut start: usize = 0;
    while start < n && byte_is_space(bytes[start])
        invariant
            n == bytes@.len(),
            start <= n,
            skip_spaces(bytes@, 0) == skip_spaces(bytes@, start as int),
        decreases n - start,
    {
        start = start + 1;
    }
    let mut end: usize = start;
    while end < n && !byte_is_space(bytes[end])
        invariant
            n == bytes@.len(),
            start <= end <= n,
            skip_word(bytes@, start as int) == skip_word(bytes@, end as int),
        decreases n - end,
    {
        end = end + 1;
    }
    (start, end)
}

/// Whether `b` is a whitespace byte.
pub fn byte_is_space(b: u8) -> (r: bool)
    ensures
        r == is_space(b),
{
    b == 0x20 || (0x09 <= b && b <= 0x0d)
}

/// Whether `b` is a decimal digit.
pub fn byte_is_digit(b: u8) -> (r: bool)
    ensures
        r == is_digit(b),
{
    0x30 <= b && b <= 0x39
}

/// Whether `a[from..to]` holds exactly the bytes of `b`.
pub fn range_equals(a: &[u8], from: usize, to: usize, b: &[u8]) -> (r: bool)
    requires
        from <= to <= a@.len(),
    ensures
        r == (a@.subrange(from as int, to as int) == b@),
{
    let n: usize = to - from;
    if n != b.len() {
        return false;
    }
    let mut i: usize = 0;
    while i < n
        invariant
            n == to - from,
            n == b@.len(),
            from <= to <= a@.len(),
            i <= n,
            forall|k: int| 0 <= k < i ==> a@[from + k] == b@[k],
        decreases n - i,
    {
        if a[from + i] != b[i] {
            return false;
        }
        i = i + 1;
    }
    assert(a@.subrange(from as int, to as int) =~= b@);
    true
}

/// Whether two byte strings are equal.
pub fn bytes_equal(a: &[u8], b: &[u8]) -> (r: bool)
    ensures
        r == (a@ == b@),
{
    assert(a@.subrange(0, a@.len() as int) =~= a@);
    range_equals(a, 0, a.len(), b)
}

/// A prefix of a digit string never writes a larger number than the whole.
pub proof fn lemma_decimal_value_prefix(s: Seq<u8>, i: int)
    requires
        0 <= i <= s.len(),
        all_digits(s),
    ensures
        decimal_value(s.take(i)) <= decimal_value(s),
    decreases s.len(),
{
    if i == s.len() {
        assert(s.take(i) =~= s);
    } else {
        let shorter = s.drop_last();
        assert(shorter.take(i) =~= s.take(i));
        lemma_decimal_value_prefix(shorter, i);
    }
}

/// One more digit on the right: ten times the value so far, plus the digit.
pub proof fn lemma_decimal_value_step(s: Seq<u8>, i: int)
    requires
        0 <= i < s.len(),
    ensures
        decimal_value(s.take(i + 1)) == decimal_value(s.take(i)) * 10 + (s[i] - ZERO) as nat,
{
    assert(s.take(i + 1).drop_last() =~= s.take(i));
}

/// Reads an unsigned decimal number: `Some` exactly where `bytes` is a
/// non-empty string of digits whose value fits in 64 bits.
pub fn parse_decimal(bytes: &[u8]) -> (r: Option<u64>)
    ensures
        r.is_some() <==> bytes@.len() > 0 && all_digits(bytes@) && decimal_value(bytes@)
            <= u64::MAX,
        r matches Some(v) ==> v == decimal_value(bytes@),
{
    let n: usize = bytes.len();
    if n == 0 {
        return None;
    }
    let mut value: u64 = 0;
    let mut i: usize = 0;
    while i < n
        invariant
            n == bytes@.len(),
            i <= n,
            all_digits(bytes@.take(i as int)),
            value == decimal_value(bytes@.take(i as int)),
        decreases n - i,
    {
        let b: u8 = bytes[i];
        if !byte_is_digit(b) {
            return None;
        }
        proof {
            lemma_decimal_value_step(bytes@, i as int);
            assert forall|k: int| 0 <= k < i + 1 implies is_digit(
                #[trigger] bytes@.take(i + 1)[k],
            ) by {}
        }
        let digit: u64 = (b - ZERO) as u64;
        let next: Option<u64> = match value.checked_mul(10) {
            Some(tens) => tens.checked_add(digit),
            None => None,
        };
        match next {
            Some(v) => {
                value = v;
            },
            None => {
                proof {
                    if all_digits(bytes@) {
                        lemma_decimal_value_prefix(bytes@, i + 1);
                    }
                }
                return None;
            },
        }
        i = i + 1;
    }
    assert(bytes@.take(n as int) =~= bytes@);
    Some(value)
}

/// Reads an unsigned decimal number of at most 16 bits: `Some` exactly
/// where `bytes` is a non-empty string of digits whose value is at most
/// 65535.
pub fn parse_decimal_u16(bytes: &[u8]) -> (r: Option<u16>)
    ensures
        r.is_some() <==> bytes@.len() > 0 && all_digits(bytes@) && decimal_value(bytes@)
            <= u16::MAX,
        r matches Some(v) ==> v == decimal_value(bytes@),
{
    match parse_decimal(bytes) {
        Some(v) => {
            if v <= 0xffff {
                Some(v as u16)
            } else {
                None
            }
        },
        None => None,
    }
}

/// The digits of a number are digits, at least one of them, and they write
/// the number back.
pub proof fn lemma_decimal_round_trip(n: nat)
    ensures
        decimal_digits(n).len() > 0,
        all_digits(decimal_digits(n)),
        decimal_value(decimal_digits(n)) == n,
        n > 0 ==> decimal_digits(n)[0] != ZERO,
    decreases n,
{
    if n < 10 {
        let s = decimal_digits(n);
        assert(decimal_value(s.drop_last()) == 0);
    } else {
        lemma_decimal_round_trip(n / 10);
        let head = decimal_digits(n / 10);
        let s = decimal_digits(n);
        assert(s.drop_last() =~= head);
        assert forall|i: int| 0 <= i < s.len() implies is_digit(#[trigger] s[i]) by {}
    }
}

/// Writes `n` in decimal, without leading zeros.
pub fn encode_decimal(n: u64) -> (r: Vec<u8>)
    ensures
        r@ == decimal_digits(n as nat),
{
    let mut reversed: Vec<u8> = Vec::new();
    let mut rest: u64 = n;
    while rest >= 10
        invariant
            decimal_digits(n as nat) =~= decimal_digits(rest as nat) + Seq::new(
                reversed@.len(),
                |i: int| reversed@[reversed@.len() - 1 - i],
            ),
        decreases rest,
    {
        reversed.push(ZERO + (rest % 10) as u8);
        rest = rest / 10;
    }
    reversed.push(ZERO + rest as u8);
    let len: usize = reversed.len();
    let mut out: Vec<u8> = Vec::new();
    let mut i: usize = 0;
    while i < len
        invariant
            len == reversed@.len(),
            i <= len,
            out@.len() == i,
            forall|k: int| 0 <= k < i ==> out@[k] == reversed@[len - 1 - k],
        decreases len - i,
    {
        out.push(reversed[len - 1 - i]);
        i = i + 1;
    }
    out
}

/// Every byte of `s` is below `0x80`.
pub open spec fn is_ascii_bytes(s: Seq<u8>) -> bool {
    forall|i: int| 0 <= i < s.len() ==> #[trigger] s[i] < 0x80
}

/// The characters whose codes are the bytes of `s`: for ASCII bytes, the
/// characters that they stand for.
pub open spec fn ascii_chars(s: Seq<u8>) -> Seq<char> {
    Seq::new(s.len(), |i: int| s[i] as char)
}

/// ASCII text is well-formed UTF-8, and is the encoding of its characters.
pub proof fn lemma_ascii_is_utf8(s: Seq<u8>)
    requires
        is_ascii_bytes(s),
    ensures
        valid_utf8(s),
        encode_utf8(ascii_chars(s)) == s,
        is_ascii_chars(ascii_chars(s)),
{
    let chars = ascii_chars(s);
    assert(is_ascii_chars(chars));
    vstd::utf8::is_ascii_chars_encode_utf8(chars);
    assert(encode_utf8(chars) =~= s);
    vstd::utf8::encode_utf8_valid_utf8(chars);
}

/// A string of digits is ASCII text.
pub proof fn lemma_digits_are_ascii(s: Seq<u8>)
    requires
        all_digits(s),
    ensures
        is_ascii_bytes(s),
{
    assert forall|i: int| 0 <= i < s.len() implies #[trigger] s[i] < 0x80 by {}
}

/// Whether two strings hold the same text.
pub fn text_equals(a: &str, b: &str) -> (r: bool)
    ensures
        r == (a@ == b@),
{
    proof {
        vstd::utf8::encode_utf8_decode_utf8(a@);
        vstd::utf8::encode_utf8_decode_utf8(b@);
    }
    bytes_equal(a.as_bytes(), b.as_bytes())
}

/// `String::push` appends one character to the end of the string.
pub assume_specification[ String::push ](s: &mut String, c: char)
    ensures
        final(s)@ == old(s)@.push(c),
;

/// Appends bytes to a string, each as the character of its code; ASCII
/// bytes are appended as the characters they stand for.
pub fn push_ascii(s: &mut String, bytes: &[u8])
    ensures
        final(s)@ == old(s)@ + ascii_chars(bytes@),
{
    let n: usize = bytes.len();
    let mut i: usize = 0;
    while i < n
        invariant
            n == bytes@.len(),
            i <= n,
            s@ == old(s)@ + ascii_chars(bytes@).take(i as int),
        decreases n - i,
    {
        let b: u8 = bytes[i];
        s.push(b as char);
        i = i + 1;
    }
}

/// The decimal text of a number.
pub open spec fn decimal_text(n: nat) -> Seq<char> {
    ascii_chars(decimal_digits(n))
}

/// Appends a number in decimal to a string.
pub fn push_decimal(s: &mut String, n: u64)
    ensures
        final(s)@ == old(s)@ + decimal_text(n as nat),
{
    let digits: Vec<u8> = encode_decimal(n);
    push_ascii(s, digits.as_slice());
}

} // verus!
