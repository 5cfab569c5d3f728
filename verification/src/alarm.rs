//! The alarm of the emulated board, driven by the host's clock.
//!
//! Its tics are milliseconds-and-microseconds of Unix time, as the board
//! counts them (see `tics_since_epoch`). Waiting for an alarm and reading
//! the clock happen on the host; the values they give are handed here.

use crate::chip::Event;
use std::sync::mpsc::Sender;
use vstd::prelude::*;

verus! {

/// The number of distinct tic values: tics count modulo this.
pub const TICS_MODULUS: u64 = 0x1_0000_0000;

/// What is told when an alarm fires.
pub trait AlarmClient {
    fn fired(&self);
}

/// An alarm backed by the host: a client to tell when the alarm fires, and
/// the sending end of the chip's event channel.
pub struct UnixAlarm<'a> {
    client: Option<&'a dyn AlarmClient>,
    event_sender: Sender<Event>,
}

/// The tics of a moment that lies `secs` seconds and `micros` microseconds
/// after the Unix epoch: `secs * 1000 + micros`, kept modulo the tic range.
pub open spec fn tics_at(secs: u64, micros: u32) -> u32 {
    ((secs * 1000 + micros) % (TICS_MODULUS as int)) as u32
}

/// How many milliseconds lie from tic `now` to tic `tics`, going forward and
/// wrapping round the tic range.
pub open spec fn delay_between(tics: u32, now: u32) -> u64 {
    if tics >= now {
        (tics - now) as u64
    } else {
        (tics - now + TICS_MODULUS) as u64
    }
}

impl<'a> UnixAlarm<'a> {
    /// The client that is told when the alarm fires, if one is set.
    pub closed spec fn client(&self) -> Option<&'a dyn AlarmClient> {
        self.client
    }

    /// The sending end of the event channel.
    pub closed spec fn sender(&self) -> Sender<Event> {
        self.event_sender
    }

    /// An alarm with no client, that sends its events on `event_sender`.
    pub fn new(event_sender: Sender<Event>) -> (alarm: Self)
        ensures
            alarm.client() is None,
            alarm.sender() == event_sender,
    {
        UnixAlarm { client: None, event_sender }
    }

    /// The alarm has fired: its client, if one is set, is told. Returns
    /// whether a client was told.
    pub fn handle_interrupt(&self) -> (notified: bool)
        ensures
            notified == self.client() is Some,
    {
        match self.client {
            Some(client) => {
                client.fired();
                true
            },
            None => false,
        }
    }

    /// Sets the client that is told when the alarm fires.
    pub fn set_client(&mut self, client: &'a dyn AlarmClient)
        ensures
            final(self).client() == Some(client),
            final(self).sender() == old(self).sender(),
    {
        let c = Some(client);
        self.client = c;
    }

    /// The largest tic value.
    pub fn max_tics(&self) -> (max: u32)
        ensures
            max == u32::MAX,
    {
        u32::MAX
    }

    /// The tic of the pending alarm; this alarm does not keep it and
    /// answers 0.
    pub fn get_alarm(&self) -> (tics: u32)
        ensures
            tics == 0,
    {
        0
    }

    /// Whether the alarm is enabled; it always is.
    pub fn is_enabled(&self) -> (enabled: bool)
        ensures
            enabled,
    {
        true
    }

    /// Enables the alarm; it always is enabled, so nothing changes.
    pub fn enable(&self) {
    }

    /// Disables the alarm; this alarm cannot be disabled, so nothing changes.
    pub fn disable(&self) {
    }

    /// The sending end of the event channel, on which a timer of the host
    /// sends `Event::Alarm` when an alarm is due.
    pub fn event_sender(&self) -> (sender: &Sender<Event>)
        ensures
            *sender == self.sender(),
    {
        &self.event_sender
    }

    /// The tics of the moment that the host's clock gave: `secs` seconds and
    /// `micros` microseconds after the Unix epoch, or `None` where the clock
    /// stood before it. That case reads as tic 0.
    pub fn now_from_clock(elapsed: Option<(u64, u32)>) -> (tics: u32)
        ensures
            tics == match elapsed {
                Some((secs, micros)) => tics_at(secs, micros),
                None => 0,
            },
    {
        match elapsed {
            Some((secs, micros)) => tics_since_epoch(secs, micros),
            None => 0,
        }
    }

    /// How many milliseconds the host waits before an alarm set for tic
    /// `tics`, at tic `now`, is due.
    pub fn alarm_delay_ms(tics: u32, now: u32) -> (ms: u64)
        ensures
            ms == delay_between(tics, now),
            ms < TICS_MODULUS,
            (now + ms) % (TICS_MODULUS as int) == tics,
    {
        tics.wrapping_sub(now) as u64
    }
}

/// The tics of a moment `secs` seconds and `micros` microseconds after the
/// Unix epoch (see `tics_at`).
pub fn tics_since_epoch(secs: u64, micros: u32) -> (tics: u32)
    ensures
        tics == tics_at(secs, micros),
{
    let low = secs % TICS_MODULUS;
    let total = low * 1000 + micros as u64;
    proof {
        let m = TICS_MODULUS as int;
        let q = secs as int / m;
        vstd::arithmetic::div_mod::lemma_fundamental_div_mod(secs as int, m);
        assert(secs * 1000 + micros == m * (q * 1000) + total) by (nonlinear_arith)
            requires
                secs as int == m * q + low,
                total == low * 1000 + micros,
        ;
        vstd::arithmetic::div_mod::lemma_mod_multiples_vanish(q * 1000, total as int, m);
    }
    (total % TICS_MODULUS) as u32
}

} // verus!
