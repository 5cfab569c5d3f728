//! The LED of the emulated board. Its state is held in memory and shown on
//! the host's console as a line of text.

use crate::led::Led;
use vstd::prelude::*;

verus! {

/// An LED of the emulated board: whether it is on, and the LED it stands
/// for, once one is set.
pub struct UnixLed<'a> {
    led: Option<&'a dyn Led>,
    is_on: bool,
}

impl<'a> UnixLed<'a> {
    /// The LED that this one stands for, if one is set.
    pub closed spec fn backing(&self) -> Option<&'a dyn Led> {
        self.led
    }

    /// An LED that is off and stands for no other LED.
    pub fn new() -> (led: Self)
        ensures
            !led.is_lit(),
            led.backing() is None,
    {
        UnixLed { led: None, is_on: false }
    }

    /// Sets the LED that this one stands for; its state is kept.
    pub fn set_led(&mut self, led: &'static dyn Led)
        ensures
            final(self).backing() == Some(led),
            final(self).is_lit() == old(self).is_lit(),
    {
        let l = Some(led);
        self.led = l;
    }

    /// The line that the console shows for the state of the LED.
    pub fn console_line(&self) -> (line: &'static str)
        ensures
            line@ == (if self.is_lit() {
                "++++++ LED  ON ++++++"@
            } else {
                "------ led off ------"@
            }),
    {
        if self.is_on {
            "++++++ LED  ON ++++++"
        } else {
            "------ led off ------"
        }
    }
}

impl<'a> Led for UnixLed<'a> {
    closed spec fn is_lit(&self) -> bool {
        self.is_on
    }

    /// The LED starts off.
    fn init(&mut self)
        ensures
            !final(self).is_lit(),
            final(self).backing() == old(self).backing(),
    {
        self.is_on = false;
    }

    fn on(&mut self)
        ensures
            final(self).backing() == old(self).backing(),
    {
        self.is_on = true;
    }

    fn off(&mut self)
        ensures
            final(self).backing() == old(self).backing(),
    {
        self.is_on = false;
    }

    fn toggle(&mut self)
        ensures
            final(self).backing() == old(self).backing(),
    {
        if self.is_on {
            self.off()
        } else {
            self.on()
        }
    }

    fn read(&self) -> (lit: bool) {
        return self.is_on;
    }
}

} // verus!
