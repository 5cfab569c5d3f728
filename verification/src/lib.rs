//! The emulated PC board: its LEDs, alarm, chip and the system-call
//! channel to an application process.

pub mod alarm;
pub mod channel;
pub mod chip;
pub mod emulator;
pub mod gpio;
pub mod led;
pub mod syscall;
pub mod text;
pub mod unix_led;
