//! General-purpose I/O pins, as far as LEDs use them.

use vstd::prelude::*;

verus! {

/// A GPIO pin that can be configured as an output, driven and read back.
///
/// `level` is the electrical level of the pin (`true` for high) and
/// `is_output` tells whether the pin is configured to drive that level.
pub trait Pin {
    spec fn level(&self) -> bool;

    spec fn is_output(&self) -> bool;

    /// Configures the pin as an output; the level it drives is kept.
    fn make_output(&mut self)
        ensures
            final(self).is_output(),
            final(self).level() == old(self).level(),
    ;

    /// Drives the pin high.
    fn set(&mut self)
        ensures
            final(self).level(),
            final(self).is_output() == old(self).is_output(),
    ;

    /// Drives the pin low.
    fn clear(&mut self)
        ensures
            !final(self).level(),
            final(self).is_output() == old(self).is_output(),
    ;

    /// Inverts the level of the pin and returns the new level.
    fn toggle(&mut self) -> (level: bool)
        ensures
            final(self).level() == !old(self).level(),
            level == final(self).level(),
            final(self).is_output() == old(self).is_output(),
    ;

    /// Reads the level of the pin.
    fn read(&self) -> (level: bool)
        ensures
            level == self.level(),
    ;
}

/// A pin of the emulated board: a level and a direction held in memory.
pub struct GpioPin {
    is_high: bool,
    is_output: bool,
}

impl GpioPin {
    /// A pin configured as an input, at the low level.
    pub fn new() -> (pin: GpioPin)
        ensures
            !pin.level(),
            !pin.is_output(),
    {
        GpioPin { is_high: false, is_output: false }
    }
}

impl Pin for GpioPin {
    closed spec fn level(&self) -> bool {
        self.is_high
    }

    closed spec fn is_output(&self) -> bool {
        self.is_output
    }

    fn make_output(&mut self) {
        self.is_output = true;
    }

    fn set(&mut self) {
        self.is_high = true;
    }

    fn clear(&mut self) {
        self.is_high = false;
    }

    fn toggle(&mut self) -> (level: bool) {
        self.is_high = !self.is_high;
        self.is_high
    }

    fn read(&self) -> (level: bool) {
        self.is_high
    }
}

} // verus!
