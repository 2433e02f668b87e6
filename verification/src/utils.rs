//! Formatting and splitting of text.

use crate::text::{chars_of, str_uppercase, to_uppercase, trimmed, trimmed_string};
use vstd::prelude::*;
use vstd::string::StringExecFns;

pub mod math;

verus! {

/// `data` in capitals behind the label `Formatted: `.
pub fn format_data(data: &str) -> (out: String)
    ensures
        out@ == "Formatted: "@ + str_uppercase(data@),
{
    let processed = private_helper(data);
    let mut out = "Formatted: ".to_owned();
    out.append(processed.as_str());
    out
}

/// `data` in capitals.
pub fn private_helper(data: &str) -> (out: String)
    ensures
        out@ == str_uppercase(data@),
{
    to_uppercase(data)
}

/// The pieces of `s` between occurrences of `delimiter`. There is always at
/// least one piece, and a delimiter at either end leaves an empty piece
/// there.
pub open spec fn split_on(s: Seq<char>, delimiter: char) -> Seq<Seq<char>>
    decreases s.len(),
{
    if s.len() == 0 {
        seq![Seq::<char>::empty()]
    } else {
        let before = split_on(s.drop_last(), delimiter);
        if s.last() == delimiter {
            before.push(Seq::<char>::empty())
        } else {
            before.drop_last().push(before.last().push(s.last()))
        }
    }
}

/// `split_on` never returns an empty sequence of pieces.
pub proof fn lemma_split_on_nonempty(s: Seq<char>, delimiter: char)
    ensures
        split_on(s, delimiter).len() >= 1,
    decreases s.len(),
{
    if s.len() > 0 {
        lemma_split_on_nonempty(s.drop_last(), delimiter);
    }
}

/// Splits text at a delimiter.
pub struct Parser {
    pub delimiter: char,
    strict_mode: bool,
}

impl Parser {
    /// The character at which the parser splits.
    pub closed spec fn splits_at(&self) -> char {
        self.delimiter
    }

    /// Whether the parser is strict.
    pub closed spec fn strict(&self) -> bool {
        self.strict_mode
    }

    /// A strict parser for `delimiter`.
    pub fn new(delimiter: char) -> (p: Self)
        ensures
            p.splits_at() == delimiter,
            p.strict(),
    {
        Parser { delimiter, strict_mode: true }
    }

    /// The pieces of `input` between delimiters, each without its leading
    /// and trailing whitespace.
    pub fn parse(&self, input: &str) -> (out: Vec<String>)
        ensures
            out@.len() >= 1,
            out@.len() == split_on(input@, self.splits_at()).len(),
            forall|i: int|
                0 <= i < out@.len() ==> (#[trigger] out@[i])@ == trimmed(
                    split_on(input@, self.splits_at())[i],
                ),
    {
        let chars = chars_of(input);
        let mut out: Vec<String> = Vec::new();
        let mut piece: Vec<char> = Vec::new();
        let mut i: usize = 0;
        while i < chars.len()
            invariant
                i <= chars.len(),
                out@.len() + 1 == split_on(chars@.subrange(0, i as int), self.delimiter).len(),
                piece@ == split_on(chars@.subrange(0, i as int), self.delimiter).last(),
                forall|k: int|
                    0 <= k < out@.len() ==> (#[trigger] out@[k])@ == trimmed(
                        split_on(chars@.subrange(0, i as int), self.delimiter)[k],
                    ),
            decreases chars.len() - i,
        {
            let ghost before = split_on(chars@.subrange(0, i as int), self.delimiter);
            let c = chars[i];
            if c == self.delimiter {
                out.push(trimmed_string(&piece));
                piece = Vec::new();
            } else {
                piece.push(c);
            }
            i += 1;
            proof {
                let now = chars@.subrange(0, i as int);
                assert(now.drop_last() =~= chars@.subrange(0, i - 1));
                assert(now.last() == c);
                let after = split_on(now, self.delimiter);
                assert forall|k: int| 0 <= k < out@.len() implies (#[trigger] out@[k])@
                    == trimmed(after[k]) by {
                    if k < before.len() - 1 {
                        assert(after[k] == before[k]);
                    }
                }
                assert(piece@ =~= after.last());
            }
        }
        assert(chars@.subrange(0, chars@.len() as int) =~= chars@);
        out.push(trimmed_string(&piece));
        out
    }

    /// Whether the parser is strict.
    pub fn validate(&self) -> (b: bool)
        ensures
            b == self.strict(),
    {
        self.strict_mode
    }
}

} // verus!
