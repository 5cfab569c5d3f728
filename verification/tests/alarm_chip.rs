use pc_emulator::alarm::{AlarmClient, UnixAlarm, tics_since_epoch};
use pc_emulator::chip::{Chip, Event};
use pc_emulator::syscall::{ContextSwitchReason, FunctionCall, SysCall};
use std::cell::Cell;

struct Counter {
    fired: Cell<u32>,
}

impl AlarmClient for Counter {
    fn fired(&self) {
        self.fired.set(self.fired.get() + 1);
    }
}

#[test]
fn alarm_without_client_tells_nobody() {
    let (sender, _receiver) = std::sync::mpsc::channel();
    let alarm = UnixAlarm::new(sender);
    assert!(!alarm.handle_interrupt());
}

#[test]
fn alarm_tells_its_client() {
    let (sender, _receiver) = std::sync::mpsc::channel();
    let counter = Counter { fired: Cell::new(0) };
    let mut alarm = UnixAlarm::new(sender);
    alarm.set_client(&counter);
    assert!(alarm.handle_interrupt());
    assert!(alarm.handle_interrupt());
    assert_eq!(counter.fired.get(), 2);
}

#[test]
fn alarm_keeps_its_sender_when_a_client_is_set() {
    let (sender, receiver) = std::sync::mpsc::channel();
    let counter = Counter { fired: Cell::new(0) };
    let mut alarm = UnixAlarm::new(sender);
    alarm.set_client(&counter);
    alarm.event_sender().send(Event::Alarm).unwrap();
    assert_eq!(receiver.try_recv().unwrap(), Event::Alarm);
    assert_eq!(counter.fired.get(), 0);
}

#[test]
fn chip_serves_drained_events() {
    let counter = Counter { fired: Cell::new(0) };
    let mut chip = Chip::new();
    assert_eq!(chip.service_events(&vec![Event::Alarm, Event::Alarm]), 0);
    chip.alarm.set_client(&counter);
    assert_eq!(chip.service_events(&vec![]), 0);
    assert_eq!(chip.service_events(&vec![Event::Alarm, Event::Alarm, Event::Alarm]), 3);
    assert_eq!(counter.fired.get(), 3);
}

#[test]
fn alarm_fixed_answers() {
    let (sender, _receiver) = std::sync::mpsc::channel();
    let alarm = UnixAlarm::new(sender);
    assert_eq!(alarm.max_tics(), u32::MAX);
    assert_eq!(alarm.get_alarm(), 0);
    assert!(alarm.is_enabled());
    alarm.enable();
    alarm.disable();
    assert!(alarm.is_enabled());
}

#[test]
fn alarm_sender_reaches_the_receiver() {
    let (sender, receiver) = std::sync::mpsc::channel();
    let alarm = UnixAlarm::new(sender);
    alarm.event_sender().send(Event::Alarm).unwrap();
    assert_eq!(receiver.recv().unwrap(), Event::Alarm);
    let timer_sender = alarm.event_sender().clone();
    timer_sender.send(Event::Alarm).unwrap();
    assert_eq!(receiver.recv().unwrap(), Event::Alarm);
}

#[test]
fn tics_count_millis_and_micros_modulo_the_tic_range() {
    assert_eq!(tics_since_epoch(0, 0), 0);
    assert_eq!(tics_since_epoch(1, 500), 1500);
    assert_eq!(tics_since_epoch(4_294_968, 0), 704);
    assert_eq!(tics_since_epoch(u64::MAX, 999_999), ((u64::MAX as u128 * 1000 + 999_999) % 4_294_967_296) as u32);
    assert_eq!(UnixAlarm::now_from_clock(Some((2, 3))), 2003);
    assert_eq!(UnixAlarm::now_from_clock(None), 0);
}

#[test]
fn alarm_delay_wraps_forward() {
    assert_eq!(UnixAlarm::alarm_delay_ms(10, 5), 5);
    assert_eq!(UnixAlarm::alarm_delay_ms(5, 5), 0);
    assert_eq!(UnixAlarm::alarm_delay_ms(5, 10), 4_294_967_291);
    assert_eq!(UnixAlarm::alarm_delay_ms(0, u32::MAX), 1);
}

#[test]
fn chip_serves_alarm_events() {
    let counter = Counter { fired: Cell::new(0) };
    let mut chip = Chip::new();
    assert!(!chip.service_event(Event::Alarm));
    chip.alarm.set_client(&counter);
    assert!(chip.service_event(Event::Alarm));
    assert_eq!(counter.fired.get(), 1);
    assert!(!chip.has_pending_interrupts());
}

#[test]
fn chip_alarm_sends_to_chip_receiver() {
    let chip = Chip::new();
    chip.alarm.event_sender().send(Event::Alarm).unwrap();
    assert_eq!(chip.event_receiver().try_recv().unwrap(), Event::Alarm);
    assert!(chip.event_receiver().try_recv().is_err());
}

#[test]
fn chip_atomic_runs_the_closure() {
    let chip = Chip::new();
    assert_eq!(chip.atomic(|| 41 + 1), 42);
    assert_eq!(*chip.mpu(), ());
    assert_eq!(*chip.systick(), ());
    assert_eq!(*chip.userspace_kernel_boundary(), SysCall::new());
}

#[test]
fn syscall_boundary_declines() {
    let boundary = SysCall::new();
    let mut state = ();
    assert_eq!(boundary.initialize_process(0x1000, 256, &mut state), Err(()));
    boundary.set_syscall_return_value(0x1000, &mut state, 5);
    assert_eq!(boundary.switch_to_process(0x2000, &mut state), (0x2000, ContextSwitchReason::Fault));
    let call = FunctionCall { pc: 1, argument0: 2, argument1: 3, argument2: 4, argument3: 5 };
    assert_eq!(boundary.set_process_function(0x3000, 64, &mut state, call), Err(0x3000));
}
