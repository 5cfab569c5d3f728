use pc_emulator::gpio::{GpioPin, Pin};
use pc_emulator::led::{Led, LedHigh, LedLow};
use pc_emulator::unix_led::UnixLed;

#[test]
fn gpio_pin_starts_low_as_input_and_follows_writes() {
    let mut pin = GpioPin::new();
    assert!(!pin.read());
    pin.make_output();
    assert!(!pin.read());
    pin.set();
    assert!(pin.read());
    pin.clear();
    assert!(!pin.read());
    assert!(pin.toggle());
    assert!(pin.read());
    assert!(!pin.toggle());
    assert!(!pin.read());
}

#[test]
fn led_high_is_lit_when_pin_is_high() {
    let mut pin = GpioPin::new();
    {
        let mut led = LedHigh::new(&mut pin);
        led.init();
        led.on();
        assert!(led.read());
    }
    assert!(pin.read());
    {
        let mut led = LedHigh::new(&mut pin);
        led.off();
        assert!(!led.read());
    }
    assert!(!pin.read());
}

#[test]
fn led_low_is_lit_when_pin_is_low() {
    let mut pin = GpioPin::new();
    pin.set();
    {
        let mut led = LedLow::new(&mut pin);
        led.init();
        assert!(!led.read());
        led.on();
        assert!(led.read());
    }
    assert!(!pin.read());
    {
        let mut led = LedLow::new(&mut pin);
        led.off();
        assert!(!led.read());
    }
    assert!(pin.read());
}

#[test]
fn led_toggle_twice_restores_state() {
    let mut pin = GpioPin::new();
    let mut high = LedHigh::new(&mut pin);
    let before = high.read();
    high.toggle();
    assert_eq!(high.read(), !before);
    high.toggle();
    assert_eq!(high.read(), before);

    let mut pin2 = GpioPin::new();
    let mut low = LedLow::new(&mut pin2);
    let before = low.read();
    low.toggle();
    assert_eq!(low.read(), !before);
    low.toggle();
    assert_eq!(low.read(), before);
}

#[test]
fn unix_led_starts_off_and_switches() {
    let mut led = UnixLed::new();
    assert!(!led.read());
    assert_eq!(led.console_line(), "------ led off ------");
    led.on();
    assert!(led.read());
    assert_eq!(led.console_line(), "++++++ LED  ON ++++++");
    led.off();
    assert!(!led.read());
    led.toggle();
    assert!(led.read());
    assert_eq!(led.console_line(), "++++++ LED  ON ++++++");
    led.toggle();
    assert!(!led.read());
    assert_eq!(led.console_line(), "------ led off ------");
}

#[test]
fn unix_led_init_switches_off() {
    let mut led = UnixLed::new();
    led.on();
    led.init();
    assert!(!led.read());
}

#[test]
fn unix_led_set_led_keeps_state() {
    let other: &'static UnixLed<'static> = Box::leak(Box::new(UnixLed::new()));
    let mut led = UnixLed::new();
    led.on();
    led.set_led(other);
    assert!(led.read());
    led.off();
    assert!(!led.read());
}
