//! Text helpers: decimal rendering and parsing of integers, and the few
//! string operations of std that the rest of the library builds on.

use vstd::prelude::*;
use vstd::utf8::*;

verus! {

broadcast use is_ascii_chars_encode_utf8;

/// The decimal digit character for `d` (`0 <= d < 10`).
pub open spec fn digit_char(d: nat) -> char {
    ((d + 48) as u8) as char
}

/// The decimal rendering of a natural number, without leading zeros.
pub open spec fn dec_chars(n: nat) -> Seq<char>
    decreases n,
{
    if n < 10 {
        seq![digit_char(n)]
    } else {
        dec_chars(n / 10).push(digit_char(n % 10))
    }
}

/// The decimal rendering of an integer: a `-` before the digits of a negative one.
pub open spec fn int_chars(v: int) -> Seq<char> {
    if v < 0 {
        seq!['-'] + dec_chars((-v) as nat)
    } else {
        dec_chars(v as nat)
    }
}

/// Appends `c` to `s`.
///
/// Calls `String::push`, which appends the given char to the end of the string.
#[verifier::external_body]
pub(crate) fn string_push(s: &mut String, c: char)
    ensures
        final(s)@ == old(s)@.push(c),
{
    s.push(c);
}

/// Appends the decimal digits of `n` to `s`.
pub fn push_decimal(s: &mut String, n: u64)
    ensures
        final(s)@ == old(s)@ + dec_chars(n as nat),
    decreases n,
{
    if n >= 10 {
        push_decimal(s, n / 10);
    }
    let d: u8 = (n % 10) as u8;
    string_push(s, (d + 48) as char);
    assert(((d + 48) as char) == digit_char((n % 10) as nat));
    proof {
        if n >= 10 {
            assert(dec_chars(n as nat) == dec_chars((n / 10) as nat).push(digit_char((n % 10) as nat)));
        }
    }
}


/// Appends the decimal rendering of `v` to `s`, with a `-` before a negative number.
pub fn push_int(s: &mut String, v: i64)
    ensures
        final(s)@ == old(s)@ + int_chars(v as int),
{
    if v < 0 {
        string_push(s, '-');
        let magnitude: u64 = (-(v as i128)) as u64;
        push_decimal(s, magnitude);
        assert(old(s)@.push('-') + dec_chars(magnitude as nat) =~= old(s)@ + (seq!['-'] + dec_chars(magnitude as nat)));
    } else {
        push_decimal(s, v as u64);
    }
}

/// The decimal rendering of `v`, as `i64::to_string` gives it.
pub fn int_to_string(v: i64) -> (r: String)
    ensures
        r@ == int_chars(v as int),
{
    let mut s = String::new();
    push_int(&mut s, v);
    assert(Seq::<char>::empty() + int_chars(v as int) =~= int_chars(v as int));
    s
}

/// Whether `b` is the ASCII code of a decimal digit.
pub open spec fn is_digit(b: u8) -> bool {
    48 <= b <= 57
}

/// Whether every byte of `s` is a decimal digit.
pub open spec fn all_digits(s: Seq<u8>) -> bool {
    forall|i: int| 0 <= i < s.len() ==> is_digit(#[trigger] s[i])
}

/// The number that a sequence of decimal digits denotes (0 for no digits).
pub open spec fn digits_value(s: Seq<u8>) -> nat
    decreases s.len(),
{
    if s.len() == 0 {
        0
    } else {
        digits_value(s.drop_last()) * 10 + (s.last() - 48) as nat
    }
}

/// The integer that a decimal text denotes: one or more digits, with an
/// optional `-` before them, and nothing else.
pub open spec fn decimal_value(s: Seq<u8>) -> Option<int> {
    if s.len() >= 2 && s[0] == 45 && all_digits(s.drop_first()) {
        Some(-(digits_value(s.drop_first()) as int))
    } else if s.len() >= 1 && all_digits(s) {
        Some(digits_value(s) as int)
    } else {
        None
    }
}

/// The `i64` that a decimal text denotes, if it denotes one in range.
pub open spec fn decimal_i64(s: Seq<u8>) -> Option<i64> {
    match decimal_value(s) {
        Some(v) => if i64::MIN <= v <= i64::MAX {
            Some(v as i64)
        } else {
            None
        },
        None => None,
    }
}

proof fn lemma_digits_value_prefix(s: Seq<u8>, j: int)
    requires
        all_digits(s),
        0 <= j <= s.len(),
    ensures
        digits_value(s.subrange(0, j)) <= digits_value(s),
    decreases s.len(),
{
    if j < s.len() {
        assert(s.drop_last() =~= s.subrange(0, s.len() - 1));
        assert(s.drop_last().subrange(0, j) =~= s.subrange(0, j));
        lemma_digits_value_prefix(s.drop_last(), j);
    } else {
        assert(s.subrange(0, j) =~= s);
    }
}

/// Parses a decimal text into an `i64`.
pub fn parse_i64(s: &[u8]) -> (r: Option<i64>)
    ensures
        r == decimal_i64(s@),
{
    let n = s.len();
    if n == 0 {
        return None;
    }
    let neg = s[0] == 45;
    let start: usize = if neg { 1 } else { 0 };
    if start == n {
        assert(!all_digits(s@)) by { assert(!is_digit(s@[0])); }
        return None;
    }
    let ghost digits = s@.subrange(start as int, n as int);
    assert(neg ==> digits =~= s@.drop_first());
    assert(!neg ==> digits =~= s@);
    let bound: u64 = 9223372036854775808;
    let mut acc: u64 = 0;
    let mut i: usize = start;
    while i < n
        invariant
            start <= i <= n,
            n == s@.len(),
            n > 0,
            neg == (s@[0] == 45),
            start == (if neg { 1usize } else { 0usize }),
            digits == s@.subrange(start as int, n as int),
            neg ==> digits =~= s@.drop_first(),
            !neg ==> digits =~= s@,
            all_digits(digits.subrange(0, i - start)),
            acc as nat == digits_value(digits.subrange(0, i - start)),
            acc <= bound,
            bound == 9223372036854775808u64,
        decreases n - i,
    {
        let b = s[i];
        if b < 48 || b > 57 {
            assert(!all_digits(digits)) by { assert(digits[i - start] == b); }
            assert(neg ==> !all_digits(s@)) by { if neg { assert(!is_digit(s@[0])); } }
            return None;
        }
        let d: u64 = (b - 48) as u64;
        let ghost pre = digits.subrange(0, i - start);
        let ghost next = digits.subrange(0, i + 1 - start);
        assert(next.drop_last() =~= pre);
        assert(next.last() == b);
        if acc > (bound - d) / 10 {
            proof {
                assert(digits_value(next) > bound);
                if all_digits(digits) {
                    assert(next =~= digits.subrange(0, i + 1 - start));
                    lemma_digits_value_prefix(digits, i + 1 - start);
                }
                assert(neg && !all_digits(digits) ==> !all_digits(s@)) by {
                    if neg && !all_digits(digits) {
                        assert(!is_digit(s@[0]));
                        assert(!all_digits(s@));
                    }
                }
                assert(!neg && !all_digits(digits) ==> !all_digits(s@));
            }
            return None;
        }
        acc = acc * 10 + d;
        i = i + 1;
        assert(all_digits(next)) by {
            assert forall|k: int| 0 <= k < next.len() implies is_digit(#[trigger] next[k]) by {
                if k < pre.len() {
                    assert(next[k] == pre[k]);
                }
            }
        }
    }
    assert(digits.subrange(0, n - start) =~= digits);
    if neg {
        if acc == bound {
            Some(i64::MIN)
        } else {
            Some(-(acc as i64))
        }
    } else {
        assert(s@.len() >= 1);
        if acc > 9223372036854775807 {
            None
        } else {
            Some(acc as i64)
        }
    }
}


pub proof fn lemma_dec_chars(n: nat)
    ensures
        dec_chars(n).len() >= 1,
        is_ascii_chars(dec_chars(n)),
        forall|i: int| 0 <= i < dec_chars(n).len() ==> is_digit(#[trigger] dec_chars(n)[i] as u8),
    decreases n,
{
    if n >= 10 {
        lemma_dec_chars(n / 10);
        let p = dec_chars(n / 10);
        assert forall|i: int| 0 <= i < dec_chars(n).len() implies is_digit(#[trigger] dec_chars(n)[i] as u8)
            && '\0' <= dec_chars(n)[i] <= '\u{7f}' by {
            if i < p.len() {
                assert(dec_chars(n)[i] == p[i]);
            }
        }
    }
}

proof fn lemma_dec_bytes(n: nat, b: Seq<u8>)
    requires
        b.len() == dec_chars(n).len(),
        forall|i: int| 0 <= i < b.len() ==> b[i] == #[trigger] dec_chars(n)[i] as u8,
    ensures
        b.len() >= 1,
        all_digits(b),
        digits_value(b) == n,
    decreases n,
{
    lemma_dec_chars(n);
    assert forall|i: int| 0 <= i < b.len() implies is_digit(#[trigger] b[i]) by {
        assert(b[i] == dec_chars(n)[i] as u8);
    }
    if n < 10 {
        assert(b[0] == dec_chars(n)[0] as u8);
        assert((((n + 48) as u8) as char) as u8 == n + 48);
        assert(b.last() == b[0]);
        assert(b.drop_last() =~= Seq::<u8>::empty());
        assert(digits_value(b.drop_last()) == 0);
    } else {
        let p = dec_chars(n / 10);
        assert forall|i: int| 0 <= i < b.drop_last().len() implies b.drop_last()[i] == #[trigger] p[i] as u8 by {
            assert(dec_chars(n)[i] == p[i]);
            assert(b[i] == dec_chars(n)[i] as u8);
        }
        lemma_dec_bytes(n / 10, b.drop_last());
        assert(b.last() == dec_chars(n)[b.len() - 1] as u8);
        let d = n % 10;
        assert((((d + 48) as u8) as char) as u8 == d + 48);
        assert(dec_chars(n)[b.len() - 1] == digit_char(d));
        assert(digits_value(b) == digits_value(b.drop_last()) * 10 + (b.last() - 48) as nat);
        assert((n / 10) * 10 + n % 10 == n);
    }
}

/// Reading back the decimal text of an `i64` gives the same number.
pub proof fn lemma_int_text_roundtrip(v: i64)
    ensures
        decimal_i64(encode_utf8(int_chars(v as int))) == Some(v),
{
    let t = int_chars(v as int);
    let b = encode_utf8(t);
    if v < 0 {
        let m = (-v) as nat;
        lemma_dec_chars(m);
        let d = dec_chars(m);
        assert(is_ascii_chars(t)) by {
            assert forall|i: int| 0 <= i < t.len() implies '\0' <= #[trigger] t[i] <= '\u{7f}' by {
                if i > 0 {
                    assert(t[i] == d[i - 1]);
                }
            }
        }
        assert(b.len() == t.len());
        assert(b[0] == t[0] as u8);
        assert forall|i: int| 0 <= i < b.drop_first().len() implies b.drop_first()[i] == #[trigger] d[i] as u8 by {
            assert(t[i + 1] == d[i]);
            assert(b[i + 1] == t[i + 1] as u8);
        }
        lemma_dec_bytes(m, b.drop_first());
    } else {
        lemma_dec_chars(v as nat);
        assert forall|i: int| 0 <= i < b.len() implies b[i] == #[trigger] t[i] as u8 by {}
        lemma_dec_bytes(v as nat, b);
        assert(is_digit(b[0]));
    }
}


/// The `String` that `bytes` hold, when they are valid UTF-8.
///
/// Calls `String::from_utf8`, which gives the string whose UTF-8 encoding the
/// bytes are, and an error exactly when they are not valid UTF-8 (the error is
/// dropped here).
#[verifier::external_body]
pub(crate) fn string_from_utf8(bytes: Vec<u8>) -> (r: Option<String>)
    ensures
        r is Some <==> valid_utf8(bytes@),
        r matches Some(s) ==> s@ == decode_utf8(bytes@),
{
    String::from_utf8(bytes).ok()
}

/// The UTF-8 bytes of `s`.
pub(crate) fn string_into_bytes(s: String) -> (r: Vec<u8>)
    ensures
        r@ == encode_utf8(s@),
{
    vstd::slice::slice_to_vec(s.as_str().as_bytes())
}

/// What `str::to_lowercase` gives for a text: its Unicode lowercase mapping.
pub uninterp spec fn lowercase(s: Seq<char>) -> Seq<char>;

/// The ASCII lowercase of one character: `A`..`Z` become `a`..`z`.
pub open spec fn ascii_lower_char(c: char) -> char {
    if 'A' <= c <= 'Z' {
        (((c as u32) + 32) as u8) as char
    } else {
        c
    }
}

/// The ASCII lowercase of a text.
pub open spec fn ascii_lowercase(s: Seq<char>) -> Seq<char> {
    s.map_values(|c: char| ascii_lower_char(c))
}

/// The lowercase of `s`.
///
/// Calls `str::to_lowercase`. Its result is named `lowercase`; of it this
/// states only that on an all-ASCII text the Unicode lowercase mapping is the
/// ASCII one (`A`..`Z` to `a`..`z`, every other ASCII character unchanged).
/// What it does to other characters is left unsaid.
#[verifier::external_body]
pub(crate) fn str_to_lowercase(s: &str) -> (r: String)
    ensures
        r@ == lowercase(s@),
        is_ascii_chars(s@) ==> r@ == ascii_lowercase(s@),
{
    s.to_lowercase()
}

/// Whether two texts are the same.
pub fn str_eq(a: &str, b: &str) -> (r: bool)
    ensures
        r == (a@ == b@),
{
    broadcast use encode_utf8_decode_utf8;

    let x = a.as_bytes();
    let y = b.as_bytes();
    if x.len() != y.len() {
        return false;
    }
    let mut i: usize = 0;
    while i < x.len()
        invariant
            x@ == encode_utf8(a@),
            y@ == encode_utf8(b@),
            x@.len() == y@.len(),
            i <= x@.len(),
            forall|j: int| 0 <= j < i ==> x@[j] == y@[j],
        decreases x@.len() - i,
    {
        if x[i] != y[i] {
            return false;
        }
        i = i + 1;
    }
    assert(x@ =~= y@);
    assert(decode_utf8(encode_utf8(a@)) == a@);
    true
}

/// The `u16` that a text denotes as `u16::from_str` reads it: an optional
/// `+`, then one or more digits, and nothing else, in range.
pub open spec fn decimal_u16(s: Seq<u8>) -> Option<u16> {
    let d = if s.len() > 0 && s[0] == 43 { s.drop_first() } else { s };
    if d.len() >= 1 && all_digits(d) && digits_value(d) <= 65535 {
        Some(digits_value(d) as u16)
    } else {
        None
    }
}

/// Parses a port number, as `u16::from_str` does.
pub fn parse_u16(s: &[u8]) -> (r: Option<u16>)
    ensures
        r == decimal_u16(s@),
{
    let n = s.len();
    let start: usize = if n > 0 && s[0] == 43 { 1 } else { 0 };
    let ghost d = if s@.len() > 0 && s@[0] == 43 { s@.drop_first() } else { s@ };
    assert(d =~= s@.subrange(start as int, n as int));
    if start == n {
        return None;
    }
    let mut acc: u32 = 0;
    let mut i: usize = start;
    while i < n
        invariant
            start <= i <= n,
            n == s@.len(),
            d == s@.subrange(start as int, n as int),
            d == (if s@.len() > 0 && s@[0] == 43 { s@.drop_first() } else { s@ }),
            all_digits(d.subrange(0, i - start)),
            acc as nat == digits_value(d.subrange(0, i - start)),
            acc <= 65535,
        decreases n - i,
    {
        let b = s[i];
        if b < 48 || b > 57 {
            assert(!all_digits(d)) by { assert(d[i - start] == b); }
            return None;
        }
        let ghost pre = d.subrange(0, i - start);
        let ghost next = d.subrange(0, i + 1 - start);
        assert(next.drop_last() =~= pre);
        assert(next.last() == b);
        acc = acc * 10 + (b - 48) as u32;
        assert(acc as nat == digits_value(next));
        if acc > 65535 {
            proof {
                if all_digits(d) {
                    lemma_digits_value_prefix(d, i + 1 - start);
                }
            }
            return None;
        }
        i = i + 1;
        assert(all_digits(next)) by {
            assert forall|k: int| 0 <= k < next.len() implies is_digit(#[trigger] next[k]) by {
                if k < pre.len() {
                    assert(next[k] == pre[k]);
                }
            }
        }
    }
    assert(d.subrange(0, n - start) =~= d);
    Some(acc as u16)
}

/// Whether `c` has the Unicode `White_Space` property: U+0009..U+000D,
/// U+0020, U+0085, U+00A0, U+1680, U+2000..U+200A, U+2028, U+2029, U+202F,
/// U+205F and U+3000.
pub open spec fn is_white_space(c: char) -> bool {
    let u = c as u32;
    ||| 0x09 <= u <= 0x0d
    ||| u == 0x20
    ||| u == 0x85
    ||| u == 0xa0
    ||| u == 0x1680
    ||| 0x2000 <= u <= 0x200a
    ||| u == 0x2028
    ||| u == 0x2029
    ||| u == 0x202f
    ||| u == 0x205f
    ||| u == 0x3000
}

/// The words of `s` after a partial word `word`: the maximal runs of
/// characters that are not white space, in order.
pub open spec fn words_after(s: Seq<char>, word: Seq<char>) -> Seq<Seq<char>>
    decreases s.len(),
{
    if s.len() == 0 {
        if word.len() > 0 { seq![word] } else { Seq::empty() }
    } else if is_white_space(s[0]) {
        (if word.len() > 0 { seq![word] } else { Seq::empty() }) + words_after(s.drop_first(), Seq::empty())
    } else {
        words_after(s.drop_first(), word.push(s[0]))
    }
}

/// The words of a text: its pieces between runs of white space.
pub open spec fn words(s: Seq<char>) -> Seq<Seq<char>> {
    words_after(s, Seq::empty())
}

/// The texts of a sequence of strings.
pub open spec fn string_seqs(v: Seq<String>) -> Seq<Seq<char>> {
    v.map_values(|p: String| p@)
}

/// The pieces of `s` between runs of white space.
///
/// Calls `str::split_whitespace`, which gives the sub-slices of `s` separated
/// by any amount of white space in the sense of the Unicode `White_Space`
/// property, with no empty piece; they are collected as strings.
#[verifier::external_body]
pub(crate) fn split_whitespace(s: &str) -> (r: Vec<String>)
    ensures
        string_seqs(r@) == words(s@),
{
    s.split_whitespace().map(|p| p.to_string()).collect()
}

/// Reading back the decimal text of a port number gives the same number.
pub proof fn lemma_u16_text_roundtrip(p: u16)
    ensures
        decimal_u16(encode_utf8(dec_chars(p as nat))) == Some(p),
{
    let t = dec_chars(p as nat);
    let b = encode_utf8(t);
    lemma_dec_chars(p as nat);
    assert forall|i: int| 0 <= i < b.len() implies b[i] == #[trigger] t[i] as u8 by {}
    lemma_dec_bytes(p as nat, b);
    assert(is_digit(b[0]));
}

} // verus!
