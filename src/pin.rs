//! A GPIO pin whose direction is a type parameter.
//!
//! A pin leaves reset as an input. An input can be read, an output can be
//! driven high or low, and a pin handed to a peripheral has a selected
//! function and nothing else. Each operation works on the value of the
//! port's eight-bit register that the hardware exposes and touches only the
//! bit of its own pin.

use core::marker::PhantomData;
use vstd::prelude::*;

verus! {

/// Marker: the pin is an input.
pub struct Input;

/// Marker: the pin is an output.
pub struct Output;

/// Marker: the pin is handed to a peripheral.
pub struct AlternateFunction;

/// The number of pins on one port.
pub const PINS_PER_PORT: u8 = 8;

/// Which peripheral function a pin is handed to, as the two select bits of
/// the port encode it.
#[derive(Clone, Copy, Debug, PartialEq, Eq, Structural)]
pub enum Function {
    Primary,
    Secondary,
    Tertiary,
}

/// Bit `n` of `v`.
pub open spec fn bit(v: u8, n: u8) -> bool {
    (v >> n) & 1 == 1
}

/// The first select bit of a function.
pub open spec fn sel0_of(f: Function) -> bool {
    f != Function::Secondary
}

/// The second select bit of a function.
pub open spec fn sel1_of(f: Function) -> bool {
    f != Function::Primary
}

/// `v` with bit `n` set to `b` and the others kept.
pub open spec fn with_bit(v: u8, n: u8, b: bool, r: u8) -> bool {
    forall|i: u8| i < 8 ==> #[trigger] bit(r, i) == if i == n { b } else { bit(v, i) }
}

fn set_bit(v: u8, n: u8, b: bool) -> (r: u8)
    requires
        n < 8,
    ensures
        with_bit(v, n, b, r),
{
    let mask: u8 = 1u8 << n;
    if b {
        let r: u8 = v | mask;
        assert forall|i: u8| i < 8 implies #[trigger] bit(r, i) == if i == n {
            true
        } else {
            bit(v, i)
        } by {
            assert(((r >> i) & 1 == 1) == if i == n {
                true
            } else {
                (v >> i) & 1 == 1
            }) by (bit_vector)
                requires
                    i < 8,
                    n < 8,
                    mask == 1u8 << n,
                    r == v | mask,
            ;
        }
        r
    } else {
        let r: u8 = v & !mask;
        assert forall|i: u8| i < 8 implies #[trigger] bit(r, i) == if i == n {
            false
        } else {
            bit(v, i)
        } by {
            assert(((r >> i) & 1 == 1) == if i == n {
                false
            } else {
                (v >> i) & 1 == 1
            }) by (bit_vector)
                requires
                    i < 8,
                    n < 8,
                    mask == 1u8 << n,
                    r == v & !mask,
            ;
        }
        r
    }
}

/// Pin `number` of a port, tagged with its mode `M`.
pub struct Pin<M> {
    number: u8,
    high: bool,
    function: Function,
    _mode: PhantomData<M>,
}

pub struct PinView {
    pub number: u8,
    /// The level an output drives.
    pub high: bool,
    /// The function a pin handed to a peripheral has.
    pub function: Function,
}

impl<M> View for Pin<M> {
    type V = PinView;

    closed spec fn view(&self) -> PinView {
        PinView { number: self.number, high: self.high, function: self.function }
    }
}

impl<M> Pin<M> {
    pub open spec fn wf(&self) -> bool {
        self@.number < PINS_PER_PORT
    }

    pub fn number(&self) -> (r: u8)
        ensures
            r == self@.number,
    {
        self.number
    }
}

impl Pin<Input> {
    /// Pin `number` as it leaves reset: an input.
    pub fn new(number: u8) -> (r: Pin<Input>)
        requires
            number < PINS_PER_PORT,
        ensures
            r.wf(),
            r@.number == number,
    {
        Pin { number, high: false, function: Function::Primary, _mode: PhantomData }
    }

    /// The level of this pin in the port's input register value `port_in`.
    pub fn is_high(&self, port_in: u8) -> (r: bool)
        requires
            self.wf(),
        ensures
            r == bit(port_in, self@.number),
    {
        (port_in >> self.number) & 1 == 1
    }

    /// Makes the pin an output driving `high`.
    pub fn into_output(self, high: bool) -> (r: Pin<Output>)
        requires
            self.wf(),
        ensures
            r.wf(),
            r@ == (PinView { high, ..self@ }),
    {
        Pin { number: self.number, high, function: self.function, _mode: PhantomData }
    }

    /// Hands the pin to the peripheral `function`.
    pub fn into_alternate(self, function: Function) -> (r: Pin<AlternateFunction>)
        requires
            self.wf(),
        ensures
            r.wf(),
            r@ == (PinView { function, ..self@ }),
    {
        Pin { number: self.number, high: self.high, function, _mode: PhantomData }
    }
}

impl Pin<Output> {
    pub fn set_high(&mut self)
        ensures
            final(self)@ == (PinView { high: true, ..old(self)@ }),
    {
        self.high = true;
    }

    pub fn set_low(&mut self)
        ensures
            final(self)@ == (PinView { high: false, ..old(self)@ }),
    {
        self.high = false;
    }

    pub fn toggle(&mut self)
        ensures
            final(self)@ == (PinView { high: !old(self)@.high, ..old(self)@ }),
    {
        self.high = !self.high;
    }

    pub fn is_set_high(&self) -> (r: bool)
        ensures
            r == self@.high,
    {
        self.high
    }

    /// The port's output register value `port_out` with this pin's bit set
    /// to the level it drives and every other bit kept.
    pub fn drive(&self, port_out: u8) -> (r: u8)
        requires
            self.wf(),
        ensures
            with_bit(port_out, self@.number, self@.high, r),
    {
        set_bit(port_out, self.number, self.high)
    }

    /// Makes the pin an input again.
    pub fn into_input(self) -> (r: Pin<Input>)
        requires
            self.wf(),
        ensures
            r.wf(),
            r@ == self@,
    {
        Pin { number: self.number, high: self.high, function: self.function, _mode: PhantomData }
    }

    /// Hands the pin to the peripheral `function`.
    pub fn into_alternate(self, function: Function) -> (r: Pin<AlternateFunction>)
        requires
            self.wf(),
        ensures
            r.wf(),
            r@ == (PinView { function, ..self@ }),
    {
        Pin { number: self.number, high: self.high, function, _mode: PhantomData }
    }
}

impl Pin<AlternateFunction> {
    pub fn function(&self) -> (r: Function)
        ensures
            r == self@.function,
    {
        self.function
    }

    /// The port's two select register values with this pin's bits set to
    /// its function and every other bit kept.
    pub fn select(&self, port_sel0: u8, port_sel1: u8) -> (r: (u8, u8))
        requires
            self.wf(),
        ensures
            with_bit(port_sel0, self@.number, sel0_of(self@.function), r.0),
            with_bit(port_sel1, self@.number, sel1_of(self@.function), r.1),
    {
        let s0 = match self.function {
            Function::Secondary => false,
            _ => true,
        };
        let s1 = match self.function {
            Function::Primary => false,
            _ => true,
        };
        (set_bit(port_sel0, self.number, s0), set_bit(port_sel1, self.number, s1))
    }

    /// Takes the pin back from its peripheral as an input.
    pub fn into_input(self) -> (r: Pin<Input>)
        requires
            self.wf(),
        ensures
            r.wf(),
            r@ == self@,
    {
        Pin { number: self.number, high: self.high, function: self.function, _mode: PhantomData }
    }

    /// Takes the pin back from its peripheral as an output driving `high`.
    pub fn into_output(self, high: bool) -> (r: Pin<Output>)
        requires
            self.wf(),
        ensures
            r.wf(),
            r@ == (PinView { high, ..self@ }),
    {
        Pin { number: self.number, high, function: self.function, _mode: PhantomData }
    }
}

} // verus!
