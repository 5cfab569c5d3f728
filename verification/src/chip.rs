//! The chip of the emulated board: its alarm, and the events that the host
//! hands to it.

use crate::alarm::UnixAlarm;
use crate::channel::open_channel;
use crate::syscall::SysCall;
use std::sync::mpsc::Receiver;
use vstd::prelude::*;

verus! {

/// An event that the host raises for the chip.
#[derive(Clone, Copy, Debug, PartialEq, Eq, Structural)]
pub enum Event {
    Alarm,
}

/// The chip: its system-call boundary, the receiving end of its event
/// channel and its alarm, which sends on that channel.
pub struct Chip<'a> {
    syscall: SysCall,
    event_receiver: Receiver<Event>,
    pub alarm: UnixAlarm<'a>,
}

impl<'a> Chip<'a> {
    /// The alarm of the chip.
    pub closed spec fn alarm_of(&self) -> UnixAlarm<'a> {
        self.alarm
    }

    /// The system-call boundary.
    pub closed spec fn boundary(&self) -> SysCall {
        self.syscall
    }

    /// The receiving end of the event channel.
    pub closed spec fn receiver(&self) -> Receiver<Event> {
        self.event_receiver
    }

    /// A chip whose alarm has no client yet.
    pub fn new() -> (chip: Self)
        ensures
            chip.alarm_of().client() is None,
    {
        let (sender, receiver) = open_channel();
        Chip {
            syscall: SysCall::new(),
            event_receiver: receiver,
            alarm: UnixAlarm::new(sender),
        }
    }

    /// Serves an event: an alarm event is handed to the alarm. Returns
    /// whether a client was told.
    pub fn service_event(&self, event: Event) -> (notified: bool)
        ensures
            event == Event::Alarm ==> notified == self.alarm_of().client() is Some,
    {
        match event {
            Event::Alarm => self.alarm.handle_interrupt(),
        }
    }

    /// Serves, in order, the events that were waiting on the channel.
    /// Returns how many of them told a client: all of them where the alarm
    /// has a client, none where it has not.
    pub fn service_events(&self, events: &Vec<Event>) -> (notified: usize)
        ensures
            notified == (if self.alarm_of().client() is Some {
                events.len()
            } else {
                0
            }),
    {
        let mut notified: usize = 0;
        let mut i: usize = 0;
        while i < events.len()
            invariant
                i <= events.len(),
                notified == (if self.alarm_of().client() is Some {
                    i
                } else {
                    0
                }),
            decreases events.len() - i,
        {
            if self.service_event(events[i]) {
                notified = notified + 1;
            }
            i = i + 1;
        }
        notified
    }

    /// The memory protection unit; this chip has none.
    pub fn mpu(&self) -> &() {
        &()
    }

    /// The system tick timer; this chip has none.
    pub fn systick(&self) -> &() {
        &()
    }

    /// The boundary between the kernel and processes.
    pub fn userspace_kernel_boundary(&self) -> (boundary: &SysCall)
        ensures
            *boundary == self.boundary(),
    {
        &self.syscall
    }

    /// Runs `f` without interruption; the emulated chip takes no interrupts
    /// while it runs, so `f` just runs.
    pub fn atomic<F, R>(&self, f: F) -> (r: R)
        where
            F: FnOnce() -> R,
        requires
            f.requires(()),
        ensures
            f.ensures((), r),
    {
        f()
    }

    /// Whether events are waiting; the chip serves them as they come, so
    /// none are.
    pub fn has_pending_interrupts(&self) -> (pending: bool)
        ensures
            !pending,
    {
        false
    }

    /// The receiving end of the event channel, on which the host waits for
    /// events to serve.
    pub fn event_receiver(&self) -> (receiver: &Receiver<Event>)
        ensures
            *receiver == self.receiver(),
    {
        &self.event_receiver
    }
}

} // verus!
