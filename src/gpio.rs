//! General Purpose Input/Output.
use vstd::prelude::*;
use crate::bits::{field, get_field, outside, set_field, with_field};

verus! {

/// GPIO direction register: bit `n` is 0 where line `n` is an input and 1
/// where it is an output.
#[derive(Clone, Copy, Debug, PartialEq, Eq, Hash)]
pub struct Direction(u32);

impl View for Direction {
    type V = u32;

    closed spec fn view(&self) -> u32 {
        self.0
    }
}

impl Direction {
    /// Wraps a raw register value.
    pub fn from_bits(bits: u32) -> (r: Self)
        ensures
            r@ == bits,
    {
        Direction(bits)
    }

    /// The raw register value.
    pub fn bits(self) -> (r: u32)
        ensures
            r == self@,
    {
        self.0
    }

    /// Set GPIO direction to input.
    pub fn set_input(self, n: u8) -> (r: Self)
        requires
            n < 32,
        ensures
            r@ == with_field(self@, n as u32, 1, 0),
            field(r@, n as u32, 1) == 0,
            outside(r@, n as u32, 1) == outside(self@, n as u32, 1),
    {
        Direction(set_field(self.0, n as u32, 1, 0))
    }

    /// Set GPIO direction to output.
    pub fn set_output(self, n: u8) -> (r: Self)
        requires
            n < 32,
        ensures
            r@ == with_field(self@, n as u32, 1, 1),
            field(r@, n as u32, 1) == 1,
            outside(r@, n as u32, 1) == outside(self@, n as u32, 1),
    {
        Direction(set_field(self.0, n as u32, 1, 1))
    }

    /// Check if GPIO direction is input.
    pub fn is_input(self, n: u8) -> (r: bool)
        requires
            n < 32,
        ensures
            r == (field(self@, n as u32, 1) == 0),
    {
        get_field(self.0, n as u32, 1) == 0
    }

    /// Check if GPIO direction is output.
    pub fn is_output(self, n: u8) -> (r: bool)
        requires
            n < 32,
        ensures
            r == (field(self@, n as u32, 1) == 1),
    {
        get_field(self.0, n as u32, 1) == 1
    }
}

/// The data register value that drives line `n` high, all others kept.
pub fn line_high(data: u32, n: u8) -> (r: u32)
    requires
        n < 32,
    ensures
        r == with_field(data, n as u32, 1, 1),
        field(r, n as u32, 1) == 1,
        outside(r, n as u32, 1) == outside(data, n as u32, 1),
{
    set_field(data, n as u32, 1, 1)
}

/// The data register value that drives line `n` low, all others kept.
pub fn line_low(data: u32, n: u8) -> (r: u32)
    requires
        n < 32,
    ensures
        r == with_field(data, n as u32, 1, 0),
        field(r, n as u32, 1) == 0,
        outside(r, n as u32, 1) == outside(data, n as u32, 1),
{
    set_field(data, n as u32, 1, 0)
}

/// Driving a line high twice gives the data value of driving it high once:
/// the bit is set, not toggled, and no other bit moves.
pub proof fn lemma_line_high_idempotent(data: u32, n: u8)
    requires
        n < 32,
    ensures
        with_field(with_field(data, n as u32, 1, 1), n as u32, 1, 1) == with_field(
            data,
            n as u32,
            1,
            1,
        ),
        field(with_field(with_field(data, n as u32, 1, 1), n as u32, 1, 1), n as u32, 1) == 1,
        outside(with_field(with_field(data, n as u32, 1, 1), n as u32, 1, 1), n as u32, 1)
            == outside(data, n as u32, 1),
{
    crate::bits::lemma_with_field_twice(data, n as u32, 1, 1);
    crate::bits::lemma_with_field(data, n as u32, 1, 1);
}

/// Input mode (type state).
pub struct Input;

/// Output mode (type state).
pub struct Output;

/// Ownership wrapper of a GPIO signal and a pad.
pub struct GpioPad<T, U> {
    gpio: T,
    pad: U,
}

impl<T, U> GpioPad<T, U> {
    /// The GPIO signal held.
    pub closed spec fn spec_gpio(&self) -> T {
        self.gpio
    }

    /// The pad held.
    pub closed spec fn spec_pad(&self) -> U {
        self.pad
    }

    /// Pairs a GPIO signal with the pad it is routed to.
    pub fn new(gpio: T, pad: U) -> (r: Self)
        ensures
            r.spec_gpio() == gpio,
            r.spec_pad() == pad,
    {
        GpioPad { gpio, pad }
    }

    /// Unwraps the ownership structure, returning the GPIO signal and the pad.
    pub fn into_inner(self) -> (r: (T, U))
        ensures
            r == (self.spec_gpio(), self.spec_pad()),
    {
        (self.gpio, self.pad)
    }

    /// The GPIO signal held.
    pub fn gpio(&self) -> (r: &T)
        ensures
            *r == self.spec_gpio(),
    {
        &self.gpio
    }
}

} // verus!
