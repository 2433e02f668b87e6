//! Hand-written iterators and functions that take or return closures.

use vstd::prelude::*;
use vstd::std_specs::iter::IteratorSpec;

verus! {

/// Counts from one up to a limit.
pub struct Counter {
    pub current: u32,
    pub max: u32,
}

impl Counter {
    /// A counter that has yielded nothing yet and stops after `max`.
    pub fn new(max: u32) -> (counter: Self)
        ensures
            counter.current == 0,
            counter.max == max,
    {
        Counter { current: 0, max }
    }

    /// The next number, or `None` once the limit is reached.
    pub fn next(&mut self) -> (item: Option<u32>)
        ensures
            final(self).max == old(self).max,
            old(self).current < old(self).max ==> final(self).current == old(self).current + 1
                && item == Some(final(self).current),
            old(self).current >= old(self).max ==> final(self).current == old(self).current
                && item is None,
    {
        if self.current < self.max {
            self.current += 1;
            Some(self.current)
        } else {
            None
        }
    }
}

/// A collection that hands out the standard iterators over its items.
pub struct CustomCollection<T> {
    pub data: Vec<T>,
}

impl<T> CustomCollection<T> {
    /// An iterator over references to the items, in order.
    pub fn iter(&self) -> (iter: std::slice::Iter<'_, T>)
        ensures
            iter.remaining() == self.data@.as_ref(),
            iter.decrease() is Some,
            iter.initial_value_relation(&iter),
    {
        self.data.iter()
    }

    /// An iterator over the items themselves, in order.
    pub fn into_iter(self) -> (iter: std::vec::IntoIter<T>)
        ensures
            iter.remaining() == self.data@,
            iter.decrease() is Some,
            iter.initial_value_relation(&iter),
    {
        self.data.into_iter()
    }
}

/// The items of `items` at positions 0, `step`, twice `step` and so on.
pub open spec fn every_nth<T>(items: Seq<T>, step: int) -> Seq<T>
    recommends
        step >= 1,
{
    Seq::new(((items.len() + step - 1) / step) as nat, |k: int| items[k * step])
}

/// Yields every `step`-th item of a sequence, starting with the first.
pub struct StepBy<T> {
    items: Vec<T>,
    position: usize,
    step: usize,
    first_take: bool,
}

impl<T: Copy> StepBy<T> {
    /// The items not yet passed over.
    pub closed spec fn rest(&self) -> Seq<T> {
        self.items@.subrange(self.position as int, self.items@.len() as int)
    }

    /// All the items, passed over or not.
    pub closed spec fn source(&self) -> Seq<T> {
        self.items@
    }

    /// The distance between two yielded items.
    pub closed spec fn step(&self) -> usize {
        self.step
    }

    /// Whether nothing has been yielded yet.
    pub closed spec fn fresh(&self) -> bool {
        self.first_take
    }

    /// The cursor lies within the items and the step is at least one.
    pub closed spec fn wf(&self) -> bool {
        self.position <= self.items@.len() && self.step >= 1
    }

    /// An iterator over every `step`-th item of `items`.
    pub fn new(items: Vec<T>, step: usize) -> (iter: Self)
        requires
            step >= 1,
        ensures
            iter.wf(),
            iter.source() == items@,
            iter.rest() == items@,
            iter.step() == step,
            iter.fresh(),
    {
        let iter = StepBy { items, position: 0, step, first_take: true };
        assert(iter.rest() =~= items@);
        iter
    }

    /// The next item. The first call yields the first item; each later call
    /// passes over `step - 1` items and yields the one after them. Once the
    /// items run out, so do the results.
    pub fn next(&mut self) -> (item: Option<T>)
        requires
            old(self).wf(),
        ensures
            final(self).wf(),
            final(self).source() == old(self).source(),
            final(self).step() == old(self).step(),
            !final(self).fresh(),
            ({
                let skip = if old(self).fresh() {
                    0
                } else {
                    old(self).step() - 1
                };
                if skip < old(self).rest().len() {
                    item == Some(old(self).rest()[skip]) && final(self).rest() == old(
                        self,
                    ).rest().skip(skip + 1)
                } else {
                    item is None && final(self).rest().len() == 0
                }
            }),
    {
        let skip = if self.first_take {
            0
        } else {
            self.step - 1
        };
        self.first_take = false;
        let left = self.items.len() - self.position;
        if skip < left {
            let item = self.items[self.position + skip];
            self.position = self.position + skip + 1;
            assert(self.rest() =~= old(self).rest().skip(skip + 1));
            Some(item)
        } else {
            self.position = self.items.len();
            None
        }
    }

    /// All the items the iterator yields from a fresh start.
    pub fn collect(items: Vec<T>, step: usize) -> (out: Vec<T>)
        requires
            step >= 1,
        ensures
            out@ == every_nth(items@, step as int),
    {
        let ghost all = items@;
        let mut iter = StepBy::new(items, step);
        let mut out: Vec<T> = Vec::new();
        let ghost mut taken: int = 0;
        loop
            invariant_except_break
                iter.wf(),
                iter.items@ == all,
                iter.step == step,
                out@.len() == taken,
                iter.first_take <==> taken == 0,
                taken == 0 ==> iter.position == 0,
                taken > 0 ==> iter.position == (taken - 1) * step + 1,
                forall|k: int| 0 <= k < taken ==> #[trigger] out@[k] == all[k * step],
            ensures
                out@ == every_nth(all, step as int),
            decreases all.len() - iter.position,
        {
            let ghost position = iter.position as int;
            proof {
                assert((taken - 1) * step + step == taken * step) by (nonlinear_arith);
                assert((taken + 1 - 1) * step == taken * step);
            }
            match iter.next() {
                Some(item) => {
                    out.push(item);
                    proof {
                        assert(iter.rest().len() == all.len() - iter.position);
                        if taken == 0 {
                            assert(item == all[0]);
                        } else {
                            assert(item == all[position + step - 1]);
                        }
                        assert(item == all[taken * step]);
                        taken = taken + 1;
                    }
                },
                None => {
                    proof {
                        lemma_every_nth_len(all.len() as int, step as int, taken);
                        assert(out@ =~= every_nth(all, step as int));
                    }
                    break;
                },
            }
        }
        out
    }
}

/// If `taken` strides of `step` cover `len` items and one stride fewer does
/// not, then `taken` is `len / step` rounded up.
proof fn lemma_every_nth_len(len: int, step: int, taken: int)
    requires
        step >= 1,
        len >= 0,
        taken >= 0,
        taken > 0 ==> (taken - 1) * step < len,
        taken * step >= len,
    ensures
        (len + step - 1) / step == taken,
{
    assert((len + step - 1) / step == taken) by (nonlinear_arith)
        requires
            step >= 1,
            len >= 0,
            taken >= 0,
            taken > 0 ==> (taken - 1) * step < len,
            taken * step >= len,
    ;
}

/// The Fibonacci numbers: 0, 1, 1, 2, 3, 5, ...
pub open spec fn fib(n: nat) -> nat
    decreases n,
{
    if n == 0 {
        0
    } else if n == 1 {
        1
    } else {
        fib((n - 1) as nat) + fib((n - 2) as nat)
    }
}

/// Yields the Fibonacci numbers for as long as the next one but one fits in
/// a `u64`.
pub struct Fibonacci {
    current: u64,
    next: u64,
    index: Ghost<nat>,
}

impl Fibonacci {
    /// How many numbers have been yielded.
    pub closed spec fn index(&self) -> nat {
        self.index@
    }

    /// The two numbers held are consecutive Fibonacci numbers.
    pub closed spec fn wf(&self) -> bool {
        self.current == fib(self.index@) && self.next == fib(self.index@ + 1)
    }

    /// An iterator that has yielded nothing yet.
    pub fn new() -> (iter: Self)
        ensures
            iter.wf(),
            iter.index() == 0,
    {
        Fibonacci { current: 0, next: 1, index: Ghost(0) }
    }

    /// The next Fibonacci number, or `None`, with nothing changed, once the
    /// number two places on no longer fits in a `u64`.
    pub fn next(&mut self) -> (item: Option<u64>)
        requires
            old(self).wf(),
        ensures
            final(self).wf(),
            fib(old(self).index() + 2) <= u64::MAX ==> item == Some(fib(old(self).index()) as u64)
                && final(self).index() == old(self).index() + 1,
            fib(old(self).index() + 2) > u64::MAX ==> item is None && final(self).index() == old(
                self,
            ).index(),
    {
        let ghost n = self.index@;
        assert(fib(n + 2) == fib(n) + fib(n + 1));
        match self.current.checked_add(self.next) {
            None => None,
            Some(new_next) => {
                let result = self.current;
                self.current = self.next;
                self.next = new_next;
                self.index = Ghost(n + 1);
                Some(result)
            },
        }
    }
}

/// Calls `closure` twice.
pub fn execute<F: Fn()>(closure: F)
    requires
        call_requires(closure, ()),
    ensures
        call_ensures(closure, (), ()),
{
    closure();
    closure();
}

/// Calls `closure` twice; the closure may change what it has captured.
pub fn execute_mut<F: FnMut()>(mut closure: F)
    requires
        call_requires(closure, ()),
    ensures
        call_ensures(closure, (), ()),
{
    closure();
    closure();
}

/// Calls `closure` once and hands back what it returns.
pub fn execute_once<F: FnOnce() -> i32>(closure: F) -> (r: i32)
    requires
        call_requires(closure, ()),
    ensures
        call_ensures(closure, (), r),
{
    closure()
}

/// A function that multiplies by `factor`, for arguments whose product with
/// `factor` fits in an `i32`.
pub fn make_multiplier(factor: i32) -> (f: impl Fn(i32) -> i32)
    ensures
        forall|x: i32| i32::MIN <= x * factor <= i32::MAX ==> call_requires(f, (x,)),
        forall|x: i32, y: i32| call_ensures(f, (x,), y) ==> y == x * factor,
{
    move |x: i32| -> (y: i32)
        requires
            i32::MIN <= x * factor <= i32::MAX,
        ensures
            y == x * factor,
        { x * factor }
}

/// Holds a callback to run on each piece of data.
pub struct Processor<F> {
    pub callback: F,
}

impl<F: FnMut(&str)> Processor<F> {
    /// Runs the callback on `data`. What the callback promises of a call on
    /// `data` then holds, and the processor holds the same callback as
    /// before, ready for the next piece.
    pub fn process(&mut self, data: &str)
        requires
            call_requires(old(self).callback, (data,)),
        ensures
            call_ensures(old(self).callback, (data,), ()),
            final(self).callback == old(self).callback,
    {
        (self.callback)(data);
    }
}

/// Holds a callback to run when clicked.
pub struct Button<F> {
    pub on_click: F,
}

impl<F: Fn()> Button<F> {
    /// Runs the callback.
    pub fn click(&self)
        requires
            call_requires(self.on_click, ()),
        ensures
            call_ensures(self.on_click, (), ()),
    {
        (self.on_click)();
    }
}

} // verus!
