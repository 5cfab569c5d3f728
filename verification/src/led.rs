//! Interface for LEDs that abstract away polarity and pin.

use crate::gpio::Pin;
use vstd::prelude::*;

verus! {

/// An LED: it can be switched on, off, toggled and read back.
///
/// `is_lit` is whether the LED is on.
pub trait Led {
    spec fn is_lit(&self) -> bool;

    /// Prepares the LED for use.
    fn init(&mut self);

    /// Switches the LED on.
    fn on(&mut self)
        ensures
            final(self).is_lit(),
    ;

    /// Switches the LED off.
    fn off(&mut self)
        ensures
            !final(self).is_lit(),
    ;

    /// Inverts the state of the LED.
    fn toggle(&mut self)
        ensures
            final(self).is_lit() == !old(self).is_lit(),
    ;

    /// Whether the LED is on.
    fn read(&self) -> (lit: bool)
        ensures
            lit == self.is_lit(),
    ;
}

/// Toggling an LED twice leaves it as it was.
pub proof fn lemma_toggle_twice<L: Led>(before: L, middle: L, after: L)
    requires
        middle.is_lit() == !before.is_lit(),
        after.is_lit() == !middle.is_lit(),
    ensures
        after.is_lit() == before.is_lit(),
{
}

/// For LEDs in which on is when GPIO is high.
pub struct LedHigh<'a, P: Pin> {
    pub pin: &'a mut P,
}

/// For LEDs in which on is when GPIO is low.
pub struct LedLow<'a, P: Pin> {
    pub pin: &'a mut P,
}

impl<'a, P: Pin> LedHigh<'a, P> {
    pub fn new(p: &'a mut P) -> (led: Self)
        ensures
            *led.pin == *old(p),
            *final(p) == *final(led.pin),
    {
        Self { pin: p }
    }
}

impl<'a, P: Pin> LedLow<'a, P> {
    pub fn new(p: &'a mut P) -> (led: Self)
        ensures
            *led.pin == *old(p),
            *final(p) == *final(led.pin),
    {
        Self { pin: p }
    }
}

impl<'a, P: Pin> Led for LedHigh<'a, P> {
    /// The LED is lit exactly when its pin is high.
    open spec fn is_lit(&self) -> bool {
        self.pin.level()
    }

    fn init(&mut self)
        ensures
            final(self).pin.is_output(),
            final(self).pin.level() == old(self).pin.level(),
    {
        self.pin.make_output();
    }

    /// Drives the pin high.
    fn on(&mut self)
        ensures
            final(self).pin.level(),
            final(self).pin.is_output() == old(self).pin.is_output(),
    {
        self.pin.set();
    }

    /// Drives the pin low.
    fn off(&mut self)
        ensures
            !final(self).pin.level(),
            final(self).pin.is_output() == old(self).pin.is_output(),
    {
        self.pin.clear();
    }

    /// Inverts the level of the pin.
    fn toggle(&mut self)
        ensures
            final(self).pin.level() == !old(self).pin.level(),
            final(self).pin.is_output() == old(self).pin.is_output(),
    {
        self.pin.toggle();
    }

    fn read(&self) -> (lit: bool) {
        self.pin.read()
    }
}

impl<'a, P: Pin> Led for LedLow<'a, P> {
    /// The LED is lit exactly when its pin is low.
    open spec fn is_lit(&self) -> bool {
        !self.pin.level()
    }

    fn init(&mut self)
        ensures
            final(self).pin.is_output(),
            final(self).pin.level() == old(self).pin.level(),
    {
        self.pin.make_output();
    }

    /// Drives the pin low.
    fn on(&mut self)
        ensures
            !final(self).pin.level(),
            final(self).pin.is_output() == old(self).pin.is_output(),
    {
        self.pin.clear();
    }

    /// Drives the pin high.
    fn off(&mut self)
        ensures
            final(self).pin.level(),
            final(self).pin.is_output() == old(self).pin.is_output(),
    {
        self.pin.set();
    }

    /// Inverts the level of the pin.
    fn toggle(&mut self)
        ensures
            final(self).pin.level() == !old(self).pin.level(),
            final(self).pin.is_output() == old(self).pin.is_output(),
    {
        self.pin.toggle();
    }

    fn read(&self) -> (lit: bool) {
        !self.pin.read()
    }
}

} // verus!
