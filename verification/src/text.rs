//! Decimal integers and separators in header and body text.

use vstd::prelude::*;
use vstd::string::*;
use vstd::utf8::is_ascii_chars;

verus! {

/// `c` is one of the ten decimal digits.
pub open spec fn is_digit(c: char) -> bool {
    '0' <= c <= '9'
}

/// The value of a decimal digit.
pub open spec fn digit_value(c: char) -> int {
    c as int - 48
}

/// Every character of `s` is a decimal digit.
pub open spec fn all_digits(s: Seq<char>) -> bool {
    forall|i: int| 0 <= i < s.len() ==> is_digit(#[trigger] s[i])
}

/// The number that a run of decimal digits writes, most significant first.
pub open spec fn decimal_value(digits: Seq<char>) -> int
    decreases digits.len(),
{
    if digits.len() == 0 {
        0
    } else {
        decimal_value(digits.drop_last()) * 10 + digit_value(digits.last())
    }
}

/// `text` begins with a sign.
pub open spec fn has_sign(text: Seq<char>) -> bool {
    text.len() > 0 && (text[0] == '-' || text[0] == '+')
}

/// The digits of a signed decimal: the text without its sign.
pub open spec fn digits_of(text: Seq<char>) -> Seq<char> {
    if has_sign(text) {
        text.skip(1)
    } else {
        text
    }
}

/// The number that a signed decimal writes, whether or not it fits a
/// machine integer.
pub open spec fn signed_value(text: Seq<char>) -> int {
    if text.len() > 0 && text[0] == '-' {
        -decimal_value(digits_of(text))
    } else {
        decimal_value(digits_of(text))
    }
}

/// A signed decimal integer of 64 bits: an optional `+` or `-`, then one or
/// more decimal digits and nothing else, the number within the range of
/// `i64`. Any other text is no number.
pub open spec fn parse_i64_spec(text: Seq<char>) -> Option<i64> {
    let digits = digits_of(text);
    let value = signed_value(text);
    if digits.len() > 0 && all_digits(digits) && i64::MIN <= value <= i64::MAX {
        Some(value as i64)
    } else {
        None
    }
}

/// The index of the first `c` in `s`, or the length of `s` where there is
/// none.
pub open spec fn first_index_of(s: Seq<char>, c: char) -> int
    decreases s.len(),
{
    if s.len() == 0 {
        0
    } else if s[0] == c {
        0
    } else {
        1 + first_index_of(s.skip(1), c)
    }
}

/// `text` split at its first `sep`: what stands before it and what stands
/// after it. `None` where `text` holds no `sep`.
pub open spec fn split_once_spec(text: Seq<char>, sep: char) -> Option<(Seq<char>, Seq<char>)> {
    let k = first_index_of(text, sep);
    if k < text.len() {
        Some((text.take(k), text.skip(k + 1)))
    } else {
        None
    }
}

/// The first index of `c` lies within `s` or at its end, nothing before it
/// is `c`, and where it lies within `s` it holds `c`.
pub proof fn lemma_first_index_of(s: Seq<char>, c: char)
    ensures
        0 <= first_index_of(s, c) <= s.len(),
        forall|j: int| 0 <= j < first_index_of(s, c) ==> s[j] != c,
        first_index_of(s, c) < s.len() ==> s[first_index_of(s, c)] == c,
    decreases s.len(),
{
    if s.len() > 0 && s[0] != c {
        let rest = s.skip(1);
        lemma_first_index_of(rest, c);
        assert forall|j: int| 0 <= j < first_index_of(s, c) implies s[j] != c by {
            if j > 0 {
                assert(rest[j - 1] == s[j]);
            }
        }
    }
}

/// An index that holds `c` and has no `c` before it is the first index of
/// `c`.
pub proof fn lemma_first_index_of_unique(s: Seq<char>, c: char, k: int)
    requires
        0 <= k <= s.len(),
        forall|j: int| 0 <= j < k ==> s[j] != c,
        k < s.len() ==> s[k] == c,
    ensures
        first_index_of(s, c) == k,
{
    lemma_first_index_of(s, c);
    let f = first_index_of(s, c);
    if f < k {
        assert(s[f] != c);
    }
}

/// A run of digits is worth at least as much as any run it begins with, and
/// no run of digits is negative.
proof fn lemma_decimal_prefix(digits: Seq<char>, n: int)
    requires
        all_digits(digits),
        0 <= n <= digits.len(),
    ensures
        0 <= decimal_value(digits.take(n)) <= decimal_value(digits),
    decreases digits.len() - n,
{
    lemma_decimal_nonnegative(digits.take(n));
    if n < digits.len() {
        lemma_decimal_prefix(digits, n + 1);
        let longer = digits.take(n + 1);
        assert(longer.drop_last() =~= digits.take(n));
        assert(is_digit(digits[n]));
        assert(longer.last() == digits[n]);
    } else {
        assert(digits.take(n) =~= digits);
    }
}

proof fn lemma_decimal_nonnegative(digits: Seq<char>)
    requires
        all_digits(digits),
    ensures
        0 <= decimal_value(digits),
    decreases digits.len(),
{
    if digits.len() > 0 {
        lemma_decimal_nonnegative(digits.drop_last());
        assert(is_digit(digits.last()));
    }
}

/// Whether two texts are the same.
pub fn same_text(a: &str, b: &str) -> (same: bool)
    ensures
        same == (a@ == b@),
{
    a.to_owned() == b.to_owned()
}

/// Reads a signed decimal integer of 64 bits.
pub fn parse_i64(text: &str) -> (r: Option<i64>)
    ensures
        r == parse_i64_spec(text@),
{
    let ghost digits = digits_of(text@);
    if !text.is_ascii() {
        proof {
            let i = choose|i: int| 0 <= i < text@.len() && !('\0' <= #[trigger] text@[i] <= '\u{7f}');
            if has_sign(text@) {
                assert(i > 0);
                assert(digits[i - 1] == text@[i]);
            } else {
                assert(digits[i] == text@[i]);
            }
        }
        return None;
    }
    proof {
        is_ascii_spec_bytes(text);
    }
    let bytes = text.as_bytes();
    let len = bytes.len();
    assert(len == text@.len());
    assert(forall|i: int| 0 <= i < len ==> bytes@[i] == #[trigger] text@[i] as u8);
    if len == 0 {
        return None;
    }
    let negative = bytes[0] == 45u8;
    let start: usize = if bytes[0] == 45u8 || bytes[0] == 43u8 {
        1
    } else {
        0
    };
    assert(has_sign(text@) == (start == 1));
    assert(negative == (text@[0] == '-'));
    assert(digits == text@.skip(start as int));
    if start == len {
        return None;
    }
    let limit: i128 = 0x8000_0000_0000_0000;
    let mut magnitude: i128 = 0;
    let mut i: usize = start;
    while i < len
        invariant
            start <= i <= len,
            len == bytes@.len(),
            len == text@.len(),
            digits == text@.skip(start as int),
            digits == digits_of(text@),
            is_ascii_chars(text@),
            forall|j: int| 0 <= j < len ==> bytes@[j] == #[trigger] text@[j] as u8,
            all_digits(digits.take(i - start)),
            magnitude == decimal_value(digits.take(i - start)),
            0 <= magnitude <= limit,
            limit == 0x8000_0000_0000_0000,
        decreases len - i,
    {
        let b = bytes[i];
        let ghost c = text@[i as int];
        assert(digits[i - start] == c);
        assert('\0' <= c <= '\u{7f}');
        assert(c as int == b as int);
        if b < 48u8 || b > 57u8 {
            assert(!is_digit(c));
            return None;
        }
        assert(is_digit(c));
        let ghost longer = digits.take(i - start + 1);
        proof {
            assert(longer.drop_last() =~= digits.take(i - start));
            assert(longer.last() == c);
            assert forall|j: int| 0 <= j < longer.len() implies is_digit(#[trigger] longer[j]) by {
                if j < i - start {
                    assert(digits.take(i - start)[j] == longer[j]);
                }
            }
        }
        let next: i128 = magnitude * 10 + (b - 48u8) as i128;
        assert(next == decimal_value(longer));
        if next > limit {
            proof {
                if all_digits(digits) {
                    lemma_decimal_prefix(digits, i - start + 1);
                }
            }
            return None;
        }
        magnitude = next;
        i = i + 1;
    }
    assert(digits.take(i - start) =~= digits);
    if negative {
        Some((-magnitude) as i64)
    } else if magnitude == limit {
        None
    } else {
        Some(magnitude as i64)
    }
}

/// Splits an ASCII text at its first `sep`.
pub(crate) fn split_once_ascii(text: &str, sep: u8) -> (r: Option<(&str, &str)>)
    requires
        text.is_ascii(),
        sep < 128,
    ensures
        match (r, split_once_spec(text@, sep as char)) {
            (Some((before, after)), Some((b, a))) => before@ == b && after@ == a,
            (None, None) => true,
            _ => false,
        },
{
    proof {
        is_ascii_spec_bytes(text);
    }
    let bytes = text.as_bytes();
    let len = bytes.len();
    let ghost c = sep as char;
    let mut i: usize = 0;
    while i < len
        invariant
            0 <= i <= len,
            len == bytes@.len(),
            len == text@.len(),
            text.is_ascii(),
            sep < 128,
            c == sep as char,
            forall|j: int| 0 <= j < len ==> bytes@[j] == #[trigger] text@[j] as u8,
            forall|j: int| 0 <= j < i ==> text@[j] != c,
        decreases len - i,
    {
        if bytes[i] == sep {
            proof {
                assert(text@[i as int] as u8 == sep);
                assert('\0' <= text@[i as int] <= '\u{7f}');
                assert(text@[i as int] == c);
                lemma_first_index_of_unique(text@, c, i as int);
            }
            let before = text.substring_ascii(0, i);
            let after = text.substring_ascii(i + 1, len);
            assert(before@ == text@.take(i as int));
            assert(after@ == text@.skip(i + 1));
            return Some((before, after));
        }
        proof {
            assert(text@[i as int] as u8 != sep);
        }
        i = i + 1;
    }
    proof {
        lemma_first_index_of_unique(text@, c, len as int);
    }
    None
}

} // verus!
