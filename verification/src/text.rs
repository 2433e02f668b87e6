//! Character and string primitives shared by the other modules.
//!
//! Unicode classification and case mapping are table lookups inside the
//! standard library. They are called through the wrappers below, whose
//! contracts name the result without describing the tables.

use vstd::prelude::*;
use vstd::string::StringExecFns;

verus! {

/// Unicode's `Alphabetic` or numeric (`Nd`, `Nl`, `No`) property of `c`.
pub uninterp spec fn char_is_alphanumeric(c: char) -> bool;

/// Unicode's `White_Space` property of `c`.
pub uninterp spec fn char_is_whitespace(c: char) -> bool;

/// The Unicode uppercase mapping of a whole string.
pub uninterp spec fn str_uppercase(s: Seq<char>) -> Seq<char>;

/// Calls `char::is_alphanumeric`. Trusted: the result is the Unicode
/// property named by [`char_is_alphanumeric`].
#[verifier::external_body]
pub(crate) fn is_alphanumeric(c: char) -> (b: bool)
    ensures
        b == char_is_alphanumeric(c),
{
    c.is_alphanumeric()
}

/// Calls `char::is_whitespace`. Trusted: the result is the Unicode property
/// named by [`char_is_whitespace`].
#[verifier::external_body]
pub(crate) fn is_whitespace(c: char) -> (b: bool)
    ensures
        b == char_is_whitespace(c),
{
    c.is_whitespace()
}

/// Calls `str::to_uppercase`. Trusted: the result is the mapping named by
/// [`str_uppercase`], a function of the characters alone.
#[verifier::external_body]
pub(crate) fn to_uppercase(s: &str) -> (r: String)
    ensures
        r@ == str_uppercase(s@),
{
    s.to_uppercase()
}

/// Calls `String::push`. Trusted: the character is appended and nothing
/// else changes.
#[verifier::external_body]
pub(crate) fn push_char(s: &mut String, c: char)
    ensures
        final(s)@ == old(s)@.push(c),
{
    s.push(c)
}

/// `c` with the ASCII capitals `A`..`Z` mapped to `a`..`z`.
pub open spec fn ascii_lowercase(c: char) -> char {
    if 'A' <= c <= 'Z' {
        ((c as u8) + 32) as char
    } else {
        c
    }
}

/// Maps an ASCII capital to its small letter and leaves every other
/// character as it is.
pub fn to_ascii_lowercase(c: char) -> (r: char)
    ensures
        r == ascii_lowercase(c),
{
    if 'A' <= c && c <= 'Z' {
        ((c as u8) + 32) as char
    } else {
        c
    }
}

/// Collects `chars` into a string.
pub fn string_from_chars(chars: &Vec<char>) -> (s: String)
    ensures
        s@ == chars@,
{
    let mut s = String::new();
    let mut i: usize = 0;
    while i < chars.len()
        invariant
            i <= chars.len(),
            s@ == chars@.subrange(0, i as int),
        decreases chars.len() - i,
    {
        push_char(&mut s, chars[i]);
        i += 1;
        assert(s@ =~= chars@.subrange(0, i as int));
    }
    assert(s@ =~= chars@);
    s
}

/// The characters of `s`, in order.
pub fn chars_of(s: &str) -> (v: Vec<char>)
    ensures
        v@ == s@,
{
    let mut v: Vec<char> = Vec::new();
    for c in it: s.chars()
        invariant
            v@ == it.seq().subrange(0, it.index() as int),
    {
        v.push(c);
    }
    v
}

/// `s` without its leading whitespace.
pub open spec fn trim_start(s: Seq<char>) -> Seq<char>
    decreases s.len(),
{
    if s.len() > 0 && char_is_whitespace(s.first()) {
        trim_start(s.drop_first())
    } else {
        s
    }
}

/// `s` without its trailing whitespace.
pub open spec fn trim_end(s: Seq<char>) -> Seq<char>
    decreases s.len(),
{
    if s.len() > 0 && char_is_whitespace(s.last()) {
        trim_end(s.drop_last())
    } else {
        s
    }
}

/// `s` without its leading and trailing whitespace.
pub open spec fn trimmed(s: Seq<char>) -> Seq<char> {
    trim_end(trim_start(s))
}

/// Skipping `k` leading whitespace characters does not change what
/// `trim_start` returns.
proof fn lemma_trim_start_skips(s: Seq<char>, k: int)
    requires
        0 <= k <= s.len(),
        forall|i: int| 0 <= i < k ==> char_is_whitespace(#[trigger] s[i]),
    ensures
        trim_start(s) == trim_start(s.subrange(k, s.len() as int)),
    decreases k,
{
    if k == 0 {
        assert(s.subrange(0, s.len() as int) =~= s);
    } else {
        let rest = s.drop_first();
        assert forall|i: int| 0 <= i < k - 1 implies char_is_whitespace(#[trigger] rest[i]) by {
            assert(rest[i] == s[i + 1]);
        }
        lemma_trim_start_skips(rest, k - 1);
        assert(rest.subrange(k - 1, rest.len() as int) =~= s.subrange(k, s.len() as int));
        assert(char_is_whitespace(s[0]));
    }
}

/// Dropping trailing whitespace characters down to length `k` does not
/// change what `trim_end` returns.
proof fn lemma_trim_end_skips(s: Seq<char>, k: int)
    requires
        0 <= k <= s.len(),
        forall|i: int| k <= i < s.len() ==> char_is_whitespace(#[trigger] s[i]),
    ensures
        trim_end(s) == trim_end(s.subrange(0, k)),
    decreases s.len() - k,
{
    if k == s.len() {
        assert(s.subrange(0, k) =~= s);
    } else {
        let rest = s.drop_last();
        assert forall|i: int| k <= i < rest.len() implies char_is_whitespace(
            #[trigger] rest[i],
        ) by {
            assert(rest[i] == s[i]);
        }
        lemma_trim_end_skips(rest, k);
        assert(rest.subrange(0, k) =~= s.subrange(0, k));
        assert(char_is_whitespace(s[s.len() - 1]));
    }
}

/// The characters of `chars` between its leading and trailing whitespace,
/// as a string.
pub fn trimmed_string(chars: &Vec<char>) -> (s: String)
    ensures
        s@ == trimmed(chars@),
{
    let n = chars.len();
    let mut start: usize = 0;
    while start < n && is_whitespace(chars[start])
        invariant
            n == chars.len(),
            start <= n,
            forall|i: int| 0 <= i < start ==> char_is_whitespace(#[trigger] chars@[i]),
        decreases n - start,
    {
        start += 1;
    }
    let mut end: usize = n;
    while end > start && is_whitespace(chars[end - 1])
        invariant
            n == chars.len(),
            start <= end <= n,
            forall|i: int| end <= i < n ==> char_is_whitespace(#[trigger] chars@[i]),
        decreases end,
    {
        end -= 1;
    }
    let mut s = String::new();
    let mut i: usize = start;
    while i < end
        invariant
            start <= i <= end <= chars.len(),
            s@ == chars@.subrange(start as int, i as int),
        decreases end - i,
    {
        push_char(&mut s, chars[i]);
        i += 1;
        assert(s@ =~= chars@.subrange(start as int, i as int));
    }
    proof {
        let whole = chars@;
        let tail = whole.subrange(start as int, n as int);
        lemma_trim_start_skips(whole, start as int);
        if start < n {
            assert(tail[0] == whole[start as int]);
        }
        assert(trim_start(whole) == tail);
        assert forall|i: int| end - start <= i < tail.len() implies char_is_whitespace(
            #[trigger] tail[i],
        ) by {
            assert(tail[i] == whole[i + start]);
        }
        lemma_trim_end_skips(tail, end - start);
        let kept = tail.subrange(0, end - start);
        assert(kept =~= whole.subrange(start as int, end as int));
        if start < end {
            assert(kept.last() == whole[end - 1]);
        }
        assert(trim_end(kept) == kept);
    }
    s
}

/// The character for a decimal digit below ten.
pub open spec fn digit_char(d: nat) -> char {
    ((48 + d) as u8) as char
}

/// `n` written in decimal, without leading zeros (`0` itself is `"0"`).
pub open spec fn decimal(n: nat) -> Seq<char>
    decreases n,
{
    if n < 10 {
        seq![digit_char(n)]
    } else {
        decimal(n / 10).push(digit_char(n % 10))
    }
}

/// Writes `n` in decimal.
pub fn decimal_string(n: u64) -> (s: String)
    ensures
        s@ == decimal(n as nat),
{
    let mut digits: Vec<char> = Vec::new();
    let mut rest = n;
    while rest >= 10
        invariant
            decimal(n as nat) == decimal(rest as nat) + digits@.reverse(),
        decreases rest,
    {
        let d = (rest % 10) as u8;
        let ghost before = digits@;
        digits.push((48 + d) as char);
        proof {
            let c = digit_char((rest % 10) as nat);
            assert(digits@.reverse() =~= seq![c] + before.reverse());
            assert(decimal(rest as nat) =~= decimal((rest / 10) as nat) + seq![c]);
            assert(decimal(n as nat) =~= decimal((rest / 10) as nat) + digits@.reverse());
        }
        rest = rest / 10;
    }
    let mut s = String::new();
    push_char(&mut s, (48 + (rest as u8)) as char);
    let mut i: usize = digits.len();
    while i > 0
        invariant
            i <= digits.len(),
            rest < 10,
            s@ == decimal(rest as nat) + digits@.reverse().subrange(0, digits.len() - i),
        decreases i,
    {
        i -= 1;
        push_char(&mut s, digits[i]);
        assert(s@ =~= decimal(rest as nat) + digits@.reverse().subrange(0, digits.len() - i));
    }
    assert(digits@.reverse().subrange(0, digits.len() as int) =~= digits@.reverse());
    s
}

/// `n` written in decimal, with a minus sign in front of a negative number.
pub open spec fn signed_decimal(n: int) -> Seq<char> {
    if n < 0 {
        seq!['-'] + decimal((-n) as nat)
    } else {
        decimal(n as nat)
    }
}

/// Writes `n` in decimal, with a minus sign if it is negative.
pub fn signed_decimal_string(n: i64) -> (s: String)
    ensures
        s@ == signed_decimal(n as int),
{
    if n < 0 {
        let magnitude: u64 = if n == i64::MIN {
            9223372036854775808
        } else {
            (-n) as u64
        };
        let mut s = "-".to_owned();
        proof {
            reveal_strlit("-");
            assert("-"@ =~= seq!['-']);
        }
        s.append(decimal_string(magnitude).as_str());
        s
    } else {
        decimal_string(n as u64)
    }
}

/// Whether `a` and `b` hold the same characters.
pub fn str_eq(a: &str, b: &str) -> (same: bool)
    ensures
        same == (a@ == b@),
{
    let x = chars_of(a);
    let y = chars_of(b);
    if x.len() != y.len() {
        return false;
    }
    let mut i: usize = 0;
    while i < x.len()
        invariant
            x.len() == y.len(),
            i <= x.len(),
            x@ == a@,
            y@ == b@,
            x@.subrange(0, i as int) == y@.subrange(0, i as int),
        decreases x.len() - i,
    {
        if x[i] != y[i] {
            return false;
        }
        i += 1;
        assert(x@.subrange(0, i as int) =~= x@.subrange(0, i - 1).push(x@[i - 1]));
        assert(y@.subrange(0, i as int) =~= y@.subrange(0, i - 1).push(y@[i - 1]));
    }
    assert(x@ =~= x@.subrange(0, x.len() as int));
    assert(y@ =~= y@.subrange(0, y.len() as int));
    true
}

/// Whether `c` occurs in `s`.
pub fn contains_char(s: &str, c: char) -> (found: bool)
    ensures
        found == s@.contains(c),
{
    let chars = chars_of(s);
    let mut i: usize = 0;
    while i < chars.len()
        invariant
            i <= chars.len(),
            chars@ == s@,
            forall|k: int| 0 <= k < i ==> chars@[k] != c,
        decreases chars.len() - i,
    {
        if chars[i] == c {
            return true;
        }
        i += 1;
    }
    false
}

/// Whether `c` is one of the ASCII digits `0` to `9`.
pub open spec fn is_digit(c: char) -> bool {
    '0' <= c <= '9'
}

/// Whether `s` is non-empty and holds ASCII digits only.
pub open spec fn all_digits(s: Seq<char>) -> bool {
    s.len() > 0 && forall|i: int| 0 <= i < s.len() ==> is_digit(#[trigger] s[i])
}

/// The number that the digits of `s` write in decimal.
pub open spec fn digits_value(s: Seq<char>) -> nat
    decreases s.len(),
{
    if s.len() == 0 {
        0
    } else {
        digits_value(s.drop_last()) * 10 + ((s.last() as u32 - 48) as nat)
    }
}

/// The number that `s` writes as a `u16`: an optional `+`, then digits only,
/// with a value that fits.
pub open spec fn parsed_u16(s: Seq<char>) -> Option<u16> {
    let digits = if s.len() > 0 && s[0] == '+' {
        s.drop_first()
    } else {
        s
    };
    if all_digits(digits) && digits_value(digits) <= u16::MAX {
        Some(digits_value(digits) as u16)
    } else {
        None
    }
}

/// The number that `s` writes as an `i32`: an optional `+` or `-`, then
/// digits only, with a value that fits.
pub open spec fn parsed_i32(s: Seq<char>) -> Option<i32> {
    let signed = s.len() > 0 && (s[0] == '+' || s[0] == '-');
    let digits = if signed {
        s.drop_first()
    } else {
        s
    };
    let value = if signed && s[0] == '-' {
        -(digits_value(digits) as int)
    } else {
        digits_value(digits) as int
    };
    if all_digits(digits) && i32::MIN <= value <= i32::MAX {
        Some(value as i32)
    } else {
        None
    }
}

/// The error of the standard integer parser.
#[verifier::external_type_specification]
#[verifier::external_body]
pub struct ExParseIntError(std::num::ParseIntError);

/// Calls `str::parse::<u16>`. Trusted: it succeeds exactly on an optional
/// `+` followed by ASCII digits whose value fits in a `u16`, and returns
/// that value.
#[verifier::external_body]
pub(crate) fn parse_u16(s: &str) -> (r: Result<u16, std::num::ParseIntError>)
    ensures
        r is Ok <==> parsed_u16(s@) is Some,
        r matches Ok(value) ==> parsed_u16(s@) == Some(value),
{
    s.parse::<u16>()
}

/// Calls `str::parse::<i32>`. Trusted: it succeeds exactly on an optional
/// sign followed by ASCII digits whose value fits in an `i32`, and returns
/// that value.
#[verifier::external_body]
pub(crate) fn parse_i32(s: &str) -> (r: Result<i32, std::num::ParseIntError>)
    ensures
        r is Ok <==> parsed_i32(s@) is Some,
        r matches Ok(value) ==> parsed_i32(s@) == Some(value),
{
    s.parse::<i32>()
}

/// Calls `ToString::to_string` on a parse error. Trusted; nothing is
/// promised of the text.
#[verifier::external_body]
pub(crate) fn parse_error_text(error: &std::num::ParseIntError) -> String {
    error.to_string()
}

/// The characters that a case mapping has still to yield.
#[verifier::external_type_specification]
#[verifier::external_body]
pub struct ExToUppercase(std::char::ToUppercase);

/// The Unicode uppercase mapping of one character, which may be several
/// characters long.
pub uninterp spec fn char_uppercase(c: char) -> Seq<char>;

/// The characters that `mapping` has not yielded yet.
pub uninterp spec fn mapping_rest(mapping: std::char::ToUppercase) -> Seq<char>;

/// Calls `char::to_uppercase`. Trusted: the iterator yields the uppercase
/// mapping of `c`, which is never empty (a character without a mapping
/// stands for itself).
#[verifier::external_body]
pub(crate) fn char_to_uppercase(c: char) -> (mapping: std::char::ToUppercase)
    ensures
        mapping_rest(mapping) == char_uppercase(c),
        mapping_rest(mapping).len() >= 1,
{
    c.to_uppercase()
}

/// Calls `Iterator::next` on a case mapping. Trusted: it yields the first
/// character still outstanding, or `None` when there is none.
#[verifier::external_body]
pub(crate) fn mapping_next(mapping: &mut std::char::ToUppercase) -> (c: Option<char>)
    ensures
        mapping_rest(*old(mapping)).len() == 0 ==> c is None && mapping_rest(*final(mapping))
            == mapping_rest(*old(mapping)),
        mapping_rest(*old(mapping)).len() > 0 ==> c == Some(mapping_rest(*old(mapping))[0])
            && mapping_rest(*final(mapping)) == mapping_rest(*old(mapping)).drop_first(),
{
    mapping.next()
}

/// The length of `s` in bytes of UTF-8, as `str::len` reports it.
pub open spec fn len_in_bytes(s: Seq<char>) -> usize {
    vstd::utf8::encode_utf8(s).len() as usize
}

} // verus!
