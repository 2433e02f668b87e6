//! Methods and associated functions on small value types.

use vstd::prelude::*;

verus! {

/// A rectangle with whole-numbered sides.
pub struct Rectangle {
    pub width: u32,
    pub height: u32,
}

impl Rectangle {
    /// The area, which must fit in a `u32`.
    pub fn area(&self) -> (area: u32)
        requires
            self.width * self.height <= u32::MAX,
        ensures
            area == self.width * self.height,
    {
        self.width * self.height
    }

    /// The square with side `size`.
    pub fn square(size: u32) -> (square: Self)
        ensures
            square.width == size,
            square.height == size,
    {
        Rectangle { width: size, height: size }
    }
}

/// A counter that only goes up.
pub struct Counter {
    value: u64,
}

impl View for Counter {
    type V = u64;

    /// The number of steps counted so far.
    closed spec fn view(&self) -> u64 {
        self.value
    }
}

impl Counter {
    /// A counter at zero.
    pub fn new() -> (counter: Self)
        ensures
            counter@ == 0,
    {
        Counter { value: 0 }
    }

    /// Sets the counter back to zero.
    pub fn reset(&mut self)
        ensures
            final(self)@ == 0,
    {
        self.value = 0;
    }

    /// Counts one step and returns the new count. The counter must not be
    /// at its largest value.
    pub fn next(&mut self) -> (count: Option<u64>)
        requires
            old(self)@ < u64::MAX,
        ensures
            final(self)@ == old(self)@ + 1,
            count == Some(final(self)@),
    {
        self.value += 1;
        Some(self.value)
    }
}

/// Settings of a service.
pub struct Config {
    pub port: u16,
}

} // verus!
