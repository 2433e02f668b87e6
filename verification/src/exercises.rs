//! Four short exercises: largest element, palindrome test, string reversal
//! and the Fizz/Buzz line of a number.

use crate::text::{
    ascii_lowercase, char_is_alphanumeric, chars_of, decimal, decimal_string, is_alphanumeric,
    string_from_chars, to_ascii_lowercase,
};
use vstd::prelude::*;
use vstd::string::StringExecFns;

verus! {

/// Whether `m` occurs in `s` and no element of `s` exceeds it.
pub open spec fn is_max_of(s: Seq<i32>, m: i32) -> bool {
    &&& s.contains(m)
    &&& forall|i: int| 0 <= i < s.len() ==> s[i] <= m
}

/// The largest element of `arr`, or `None` for an empty slice.
pub fn max_val(arr: &[i32]) -> (r: Option<i32>)
    ensures
        arr@.len() == 0 ==> r is None,
        arr@.len() > 0 ==> r is Some && is_max_of(arr@, r->0),
{
    if arr.len() == 0 {
        return None;
    }
    let mut max = arr[0];
    let mut i: usize = 1;
    assert(arr@.subrange(0, 1)[0] == max);
    while i < arr.len()
        invariant
            1 <= i <= arr.len(),
            is_max_of(arr@.subrange(0, i as int), max),
        decreases arr.len() - i,
    {
        let ghost before = arr@.subrange(0, i as int);
        let ghost k = before.index_of(max);
        if arr[i] > max {
            max = arr[i];
        }
        i += 1;
        proof {
            let now = arr@.subrange(0, i as int);
            assert(now[i - 1] == arr@[i - 1]);
            assert(now[k] == before[k]);
            assert forall|j: int| 0 <= j < now.len() implies now[j] <= max by {
                if j < i - 1 {
                    assert(now[j] == before[j]);
                }
            }
        }
    }
    assert(arr@.subrange(0, arr@.len() as int) =~= arr@);
    Some(max)
}

/// The alphanumeric characters of `s`, in order, with ASCII capitals lowered.
pub open spec fn normalized(s: Seq<char>) -> Seq<char> {
    s.filter(|c: char| char_is_alphanumeric(c)).map_values(|c: char| ascii_lowercase(c))
}

/// Whether `s` reads the same in both directions.
pub open spec fn is_palindrome(s: Seq<char>) -> bool {
    s == s.reverse()
}

/// Whether `s` is a palindrome once everything but letters and digits is
/// dropped and ASCII case is ignored.
pub fn pal_check(s: &str) -> (b: bool)
    ensures
        b == is_palindrome(normalized(s@)),
{
    let chars = chars_of(s);
    let mut kept: Vec<char> = Vec::new();
    let mut i: usize = 0;
    while i < chars.len()
        invariant
            i <= chars.len(),
            kept@ == normalized(chars@.subrange(0, i as int)),
        decreases chars.len() - i,
    {
        let c = chars[i];
        let ghost before = chars@.subrange(0, i as int);
        if is_alphanumeric(c) {
            kept.push(to_ascii_lowercase(c));
        }
        i += 1;
        proof {
            let now = chars@.subrange(0, i as int);
            let keep = |c: char| char_is_alphanumeric(c);
            let lower = |c: char| ascii_lowercase(c);
            assert(now =~= before.push(c));
            before.lemma_filter_push(c, keep);
            assert(now.filter(keep) == if keep(c) {
                before.filter(keep).push(c)
            } else {
                before.filter(keep)
            });
            assert(before.filter(keep).push(c).map_values(lower) =~= before.filter(
                keep,
            ).map_values(lower).push(lower(c)));
            assert(kept@ =~= normalized(now));
        }
    }
    assert(chars@.subrange(0, chars@.len() as int) =~= chars@);
    let n = kept.len();
    let mut j: usize = 0;
    while j < n / 2
        invariant
            n == kept.len(),
            j <= n / 2,
            kept@ == normalized(s@),
            forall|k: int| 0 <= k < j ==> #[trigger] kept@[k] == kept@[n - 1 - k],
        decreases n / 2 - j,
    {
        if kept[j] != kept[n - 1 - j] {
            assert(kept@.reverse()[j as int] == kept@[n - 1 - j]);
            return false;
        }
        j += 1;
    }
    proof {
        assert forall|k: int| 0 <= k < n implies kept@[k] == kept@.reverse()[k] by {
            if k >= n / 2 && n - 1 - k < n / 2 {
                assert(kept@[n - 1 - k] == kept@[n - 1 - (n - 1 - k)]);
            }
        }
        assert(kept@ =~= kept@.reverse());
    }
    true
}

/// The characters of `s` in the opposite order.
pub fn reverse_string(s: &str) -> (r: String)
    ensures
        r@ == s@.reverse(),
{
    let chars = chars_of(s);
    let n = chars.len();
    let mut out: Vec<char> = Vec::new();
    let mut i: usize = 0;
    while i < n
        invariant
            n == chars.len(),
            i <= n,
            out@ == chars@.reverse().subrange(0, i as int),
        decreases n - i,
    {
        out.push(chars[n - 1 - i]);
        i += 1;
        assert(out@ =~= chars@.reverse().subrange(0, i as int));
    }
    assert(out@ =~= chars@.reverse());
    string_from_chars(&out)
}

/// The word that stands for `n`: `Fizz` for a multiple of three, `Buzz` for
/// a multiple of five, both joined for a multiple of fifteen, and nothing
/// for any other number.
pub open spec fn fizz_buzz_word(n: u32) -> Seq<char> {
    (if n % 3 == 0 {
        "Fizz"@
    } else {
        Seq::<char>::empty()
    }) + (if n % 5 == 0 {
        "Buzz"@
    } else {
        Seq::<char>::empty()
    })
}

/// What is said for `n`: its word if it has one, and else the number itself
/// in decimal.
pub open spec fn fizz_buzz_line(n: u32) -> Seq<char> {
    if fizz_buzz_word(n).len() == 0 {
        decimal(n as nat)
    } else {
        fizz_buzz_word(n)
    }
}

/// Computes [`fizz_buzz_line`].
pub fn fizz_buzz(n: u32) -> (line: String)
    ensures
        line@ == fizz_buzz_line(n),
{
    let mut word = String::new();
    if n % 3 == 0 {
        word.append("Fizz");
    }
    if n % 5 == 0 {
        word.append("Buzz");
    }
    assert(word@ =~= fizz_buzz_word(n));
    if word.as_str().is_empty() {
        decimal_string(n as u64)
    } else {
        word
    }
}

} // verus!
