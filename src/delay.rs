use vstd::prelude::*;
use std::time::Instant;

verus! {

/// `std::time::Instant`, a point of the monotonic clock, carried through as
/// an opaque value.
#[verifier::external_type_specification]
#[verifier::external_body]
pub struct ExInstant(Instant);

/// Relies on `std::time::Instant::now`: reads the monotonic clock.
#[verifier::external_body]
fn instant_now() -> Instant {
    Instant::now()
}

/// Relies on `std::time::Instant::elapsed`: the whole milliseconds that have
/// passed since `t`, as `Duration::as_millis` counts them.
#[verifier::external_body]
fn elapsed_ms(t: &Instant) -> u128 {
    t.elapsed().as_millis()
}

/// What a delay is, apart from its start time.
pub struct DelayView {
    /// Whether the delay is running.
    pub armed: bool,
    /// Its length in milliseconds.
    pub delay_ms: u64,
}

/// What is left of a delay of `delay_ms` once `elapsed_ms` have passed.
pub open spec fn remaining_after(delay_ms: u64, elapsed_ms: u128) -> u64 {
    if elapsed_ms >= delay_ms {
        0
    } else {
        (delay_ms - elapsed_ms) as u64
    }
}

/// A wait of some milliseconds from a start time, owed before the next
/// DDC/CI command may be sent.
#[derive(Clone, Debug)]
pub struct Delay {
    time: Option<Instant>,
    delay_ms: u64,
}

impl View for Delay {
    type V = DelayView;

    closed spec fn view(&self) -> DelayView {
        DelayView { armed: self.time is Some, delay_ms: self.delay_ms }
    }
}

impl Delay {
    /// Creates a delay of `delay_ms` milliseconds starting now.
    pub fn new(delay_ms: u64) -> (r: Self)
        ensures
            r@ == (DelayView { armed: true, delay_ms }),
    {
        Delay { time: Some(instant_now()), delay_ms }
    }

    /// Length of the delay in milliseconds.
    pub fn delay_ms(&self) -> (r: u64)
        ensures
            r == self@.delay_ms,
    {
        self.delay_ms
    }

    /// Whether the delay is running.
    pub fn is_armed(&self) -> (r: bool)
        ensures
            r == self@.armed,
    {
        self.time.is_some()
    }

    /// The milliseconds left of the delay once `elapsed_ms` have passed
    /// since it started; nothing is left of a delay that is not running.
    pub fn remaining_at(&self, elapsed_ms: u128) -> (r: u64)
        ensures
            r == (if self@.armed { remaining_after(self@.delay_ms, elapsed_ms) } else { 0 }),
    {
        match self.time {
            Some(_) => {
                if elapsed_ms >= self.delay_ms as u128 {
                    0
                } else {
                    (self.delay_ms as u128 - elapsed_ms) as u64
                }
            },
            None => 0,
        }
    }

    /// The milliseconds left of the delay now.
    pub fn remaining(&self) -> (r: u64)
        ensures
            r <= self@.delay_ms,
            !self@.armed ==> r == 0,
            self@.armed ==> exists|e: u128| r == remaining_after(self@.delay_ms, e),
    {
        match &self.time {
            Some(t) => {
                let e = elapsed_ms(t);
                let r = self.remaining_at(e);
                assert(r == remaining_after(self@.delay_ms, e));
                r
            },
            None => 0,
        }
    }

    /// Stops the delay and returns the milliseconds that were left of it:
    /// what the caller must still wait before the bus may be used.
    pub fn take_remaining(&mut self) -> (r: u64)
        ensures
            final(self)@ == (DelayView { armed: false, delay_ms: old(self)@.delay_ms }),
            r <= old(self)@.delay_ms,
            !old(self)@.armed ==> r == 0,
            old(self)@.armed ==> exists|e: u128| r == remaining_after(old(self)@.delay_ms, e),
    {
        let r = self.remaining();
        self.time = None;
        r
    }
}

impl Default for Delay {
    fn default() -> (r: Self)
        ensures
            r@ == (DelayView { armed: false, delay_ms: 0 }),
    {
        Delay { time: None, delay_ms: 0 }
    }
}

} // verus!
