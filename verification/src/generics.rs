//! Traits with one implementor, a unit error type and copy-on-write text.

use crate::text::{chars_of, str_uppercase, to_uppercase};
use std::borrow::Cow;
use vstd::prelude::*;

verus! {

/// Something that turns a value into another of the same type.
pub trait Processor<T> {
    /// The values that `process` accepts.
    spec fn accepts(&self, value: T) -> bool;

    /// What `process` returns for `value`.
    spec fn processed(&self, value: T) -> T;

    /// Turns `value` into what `processed` says.
    fn process(&self, value: T) -> (r: T)
        requires
            self.accepts(value),
        ensures
            r == self.processed(value),
    ;
}

/// Doubles numbers.
pub struct Doubler;

impl Processor<i32> for Doubler {
    open spec fn accepts(&self, value: i32) -> bool {
        i32::MIN <= value * 2 <= i32::MAX
    }

    open spec fn processed(&self, value: i32) -> i32 {
        (value * 2) as i32
    }

    fn process(&self, value: i32) -> (r: i32) {
        value * 2
    }
}

/// Runs `value` through `processor`.
pub fn generic_fn<T, P: Processor<T>>(value: T, processor: P) -> (r: T)
    requires
        processor.accepts(value),
    ensures
        r == processor.processed(value),
{
    processor.process(value)
}

/// Calls `f` on a reference to the number ten.
pub fn call_with_ref<F: Fn(&i32)>(f: F)
    requires
        call_requires(f, (&10i32,)),
    ensures
        call_ensures(f, (&10i32,), ()),
{
    let value: i32 = 10;
    f(&value);
}

/// An error that says nothing but that something failed.
pub struct MyError;

impl MyError {
    /// The error in words.
    pub fn message(&self) -> (text: String)
        ensures
            text@ == "custom error"@,
    {
        "custom error".to_owned()
    }
}

/// Succeeds with 42 if `ok`, and fails otherwise.
pub fn might_fail(ok: bool) -> (r: Result<i32, MyError>)
    ensures
        ok ==> r == Ok::<i32, MyError>(42),
        !ok ==> r is Err,
{
    if ok {
        Ok(42)
    } else {
        Err(MyError)
    }
}

/// Unicode's `Uppercase` property of `c`.
pub uninterp spec fn char_is_uppercase(c: char) -> bool;

/// Calls `char::is_uppercase`. Trusted: the result is the Unicode property
/// named by [`char_is_uppercase`].
#[verifier::external_body]
fn is_uppercase(c: char) -> (b: bool)
    ensures
        b == char_is_uppercase(c),
{
    c.is_uppercase()
}

/// Whether every character of `s` is an uppercase one.
pub open spec fn all_uppercase(s: Seq<char>) -> bool {
    forall|i: int| 0 <= i < s.len() ==> char_is_uppercase(#[trigger] s[i])
}

/// `input` itself if all its characters are uppercase ones, and an owned
/// copy in uppercase otherwise.
pub fn uppercase<'a>(input: Cow<'a, str>) -> (r: Cow<'a, str>)
    ensures
        all_uppercase(input@) ==> r == input,
        !all_uppercase(input@) ==> (r matches Cow::Owned(upper) && upper@ == str_uppercase(
            input@,
        )),
{
    let upper = {
        let text: &str = match &input {
            Cow::Borrowed(borrowed) => borrowed,
            Cow::Owned(owned) => owned.as_str(),
        };
        first_not_uppercase(text)
    };
    match upper {
        None => input,
        Some(upper) => Cow::Owned(upper),
    }
}

/// The uppercase form of `text` if some character of it is not an uppercase
/// one, and `None` otherwise.
fn first_not_uppercase(text: &str) -> (r: Option<String>)
    ensures
        all_uppercase(text@) ==> r is None,
        !all_uppercase(text@) ==> (r matches Some(upper) && upper@ == str_uppercase(text@)),
{
    let chars = chars_of(text);
    let mut i: usize = 0;
    while i < chars.len()
        invariant
            i <= chars.len(),
            chars@ == text@,
            forall|k: int| 0 <= k < i ==> char_is_uppercase(#[trigger] chars@[k]),
        decreases chars.len() - i,
    {
        if !is_uppercase(chars[i]) {
            return Some(to_uppercase(text));
        }
        i += 1;
    }
    None
}

} // verus!
