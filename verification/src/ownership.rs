//! Borrowed text and the lifetimes that tie it to its owner.

use crate::text::chars_of;
use vstd::prelude::*;
use vstd::string::StrSliceExecFns;

verus! {

/// The longer of two texts, by length in bytes; the second if they are
/// equally long.
pub fn longest<'a>(x: &'a str, y: &'a str) -> (r: &'a str)
    ensures
        r@ == if x.len() > y.len() {
            x@
        } else {
            y@
        },
{
    if x.len() > y.len() {
        x
    } else {
        y
    }
}

/// The position of the first `mark` in `s`, or the length of `s` if there
/// is none.
pub open spec fn first_index_of(s: Seq<char>, mark: char) -> int
    decreases s.len(),
{
    if s.len() == 0 || s[0] == mark {
        0
    } else {
        1 + first_index_of(s.drop_first(), mark)
    }
}

/// A position with no `mark` before it that is the end of `s` or holds a
/// `mark` is the first position of `mark`.
proof fn lemma_first_index_found(s: Seq<char>, mark: char, k: int)
    requires
        0 <= k <= s.len(),
        forall|i: int| 0 <= i < k ==> s[i] != mark,
        k == s.len() || s[k] == mark,
    ensures
        first_index_of(s, mark) == k,
    decreases k,
{
    if k > 0 {
        let rest = s.drop_first();
        assert forall|i: int| 0 <= i < k - 1 implies rest[i] != mark by {
            assert(rest[i] == s[i + 1]);
        }
        lemma_first_index_found(rest, mark, k - 1);
    }
}

/// A piece of a text, borrowed from it.
pub struct Excerpt<'a> {
    part: &'a str,
}

impl<'a> Excerpt<'a> {
    /// The characters of the excerpt.
    pub closed spec fn part(&self) -> Seq<char> {
        self.part@
    }

    /// The first sentence of `text`: everything before its first full stop,
    /// or all of it if it has none.
    pub fn new(text: &'a str) -> (excerpt: Self)
        ensures
            excerpt.part() == text@.subrange(0, first_index_of(text@, '.')),
    {
        let chars = chars_of(text);
        let mut k: usize = 0;
        while k < chars.len() && chars[k] != '.'
            invariant
                k <= chars.len(),
                forall|i: int| 0 <= i < k ==> chars@[i] != '.',
            decreases chars.len() - k,
        {
            k += 1;
        }
        proof {
            lemma_first_index_found(text@, '.', k as int);
        }
        Excerpt { part: text.substring_char(0, k) }
    }

    /// The text of the excerpt.
    pub fn get_part(&self) -> (part: &str)
        ensures
            part@ == self.part(),
    {
        self.part
    }
}

/// A text that lives as long as the program.
pub fn get_static() -> (text: &'static str)
    ensures
        text@ == "hello"@,
{
    "hello"
}

/// A text borrowed for a long time, handed on as one borrowed for a
/// shorter time.
pub fn subtyping<'long: 'short, 'short>(long: &'long str) -> (short: &'short str)
    ensures
        short@ == long@,
{
    long
}

/// Holds a borrowed text.
pub struct Container<'a> {
    pub data: &'a str,
}

/// A container of a long-lived text, handed on as one of a shorter-lived
/// text.
pub fn use_container<'long: 'short, 'short>(long: Container<'long>) -> (short: Container<'short>)
    ensures
        short.data@ == long.data@,
{
    long
}

} // verus!
