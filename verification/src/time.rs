//! System time stamps, counted in ticks of the system timer.
//!
//! The timer runs at a quarter of the bus clock. The bus clock is read from the
//! system at run time, so every conversion between ticks and nanoseconds takes
//! it as an argument.

use vstd::prelude::*;
use crate::Error;

verus! {

/// Frequency of the system timer (ticks per second) for a given bus clock speed.
pub open spec fn timer_clock(bus_clock: u32) -> nat {
    (bus_clock / 4) as nat
}

/// `n` clamped to the range of `u64`.
pub open spec fn clamp_u64(n: nat) -> nat {
    if n > u64::MAX { u64::MAX as nat } else { n }
}

/// Ticks that stand for a duration of `nanos` nanoseconds (rounded down).
pub open spec fn ticks_from_nanos(nanos: nat, bus_clock: u32) -> nat {
    (clamp_u64(nanos) * timer_clock(bus_clock) / 31250) / 32000
}

/// Nanoseconds that `ticks` timer ticks last (rounded down, clamped to `u64`).
pub open spec fn nanos_from_ticks(ticks: nat, bus_clock: u32) -> nat {
    clamp_u64((ticks * 31250 * 32000) / timer_clock(bus_clock))
}

/// A point in time, in timer ticks.
#[derive(Debug, Clone, Copy, PartialEq, Eq, Structural, PartialOrd, Ord, Hash)]
pub struct SystemTime(pub u64);

impl SystemTime {
    /// The moment the system started: tick zero.
    pub fn startup() -> (r: Self)
        ensures
            r.0 == 0,
    {
        SystemTime(0)
    }

    /// Wraps a raw tick count.
    pub fn from_ticks(ticks: u64) -> (r: Self)
        ensures
            r.0 == ticks,
    {
        SystemTime(ticks)
    }

    /// The raw tick count.
    pub fn ticks(self) -> (r: u64)
        ensures
            r == self.0,
    {
        self.0
    }

    /// The time span of `nanos` nanoseconds, in ticks.
    ///
    /// Durations longer than `u64::MAX` nanoseconds count as `u64::MAX` nanoseconds.
    pub fn from_duration_nanos(nanos: u128, bus_clock: u32) -> (r: Self)
        requires
            clamp_u64(nanos as nat) * timer_clock(bus_clock) <= u64::MAX,
        ensures
            r.0 == ticks_from_nanos(nanos as nat, bus_clock),
    {
        let nsec: u64 = if nanos > u64::MAX as u128 {
            u64::MAX
        } else {
            nanos as u64
        };
        let clock: u32 = bus_clock / 4;
        SystemTime((nsec * (clock as u64) / 31250) / 32000)
    }

    /// The time span since `STARTUP`, in nanoseconds.
    pub fn to_duration_nanos(self, bus_clock: u32) -> (r: u64)
        requires
            timer_clock(bus_clock) > 0,
        ensures
            r == nanos_from_ticks(self.0 as nat, bus_clock),
    {
        let clock: u32 = bus_clock / 4;
        proof {
            assert(self.0 * 31250 * 32000 <= u64::MAX * 31250 * 32000) by (nonlinear_arith);
        }
        let nanos: u128 = (self.0 as u128 * 31250 * 32000) / (clock as u128);
        if nanos > u64::MAX as u128 {
            u64::MAX
        } else {
            nanos as u64
        }
    }

    /// The time `nanos` nanoseconds later.
    pub fn add_nanos(self, nanos: u128, bus_clock: u32) -> (r: Self)
        requires
            clamp_u64(nanos as nat) * timer_clock(bus_clock) <= u64::MAX,
            self.0 + ticks_from_nanos(nanos as nat, bus_clock) <= u64::MAX,
        ensures
            r.0 == self.0 + ticks_from_nanos(nanos as nat, bus_clock),
    {
        SystemTime(self.0 + Self::from_duration_nanos(nanos, bus_clock).0)
    }

    /// The time `nanos` nanoseconds earlier.
    pub fn sub_nanos(self, nanos: u128, bus_clock: u32) -> (r: Self)
        requires
            clamp_u64(nanos as nat) * timer_clock(bus_clock) <= u64::MAX,
            ticks_from_nanos(nanos as nat, bus_clock) <= self.0,
        ensures
            r.0 == self.0 - ticks_from_nanos(nanos as nat, bus_clock),
    {
        SystemTime(self.0 - Self::from_duration_nanos(nanos, bus_clock).0)
    }

    /// The time span from `earlier` to `self`, in nanoseconds; an error unless
    /// `earlier` lies strictly before `self`.
    pub fn duration_since(&self, earlier: SystemTime, bus_clock: u32) -> (r: Result<u64, Error>)
        requires
            timer_clock(bus_clock) > 0,
        ensures
            earlier.0 < self.0 ==> r == Ok::<u64, Error>(
                nanos_from_ticks((self.0 - earlier.0) as nat, bus_clock) as u64,
            ),
            earlier.0 >= self.0 ==> r == Err::<u64, Error>(Error::EarlierIsLater),
    {
        if earlier.0 < self.0 {
            let diff = self.0 - earlier.0;
            Ok(SystemTime(diff).to_duration_nanos(bus_clock))
        } else {
            Err(Error::EarlierIsLater)
        }
    }
}

/// Converting ticks to nanoseconds keeps their order.
pub proof fn lemma_nanos_from_ticks_monotone(t1: nat, t2: nat, bus_clock: u32)
    requires
        t1 <= t2,
        timer_clock(bus_clock) > 0,
    ensures
        nanos_from_ticks(t1, bus_clock) <= nanos_from_ticks(t2, bus_clock),
{
    assert(t1 * 31250 * 32000 <= t2 * 31250 * 32000) by (nonlinear_arith)
        requires
            t1 <= t2,
    ;
    vstd::arithmetic::div_mod::lemma_div_is_ordered(
        (t1 * 31250 * 32000) as int,
        (t2 * 31250 * 32000) as int,
        timer_clock(bus_clock) as int,
    );
}

/// Converting nanoseconds to ticks keeps their order.
pub proof fn lemma_ticks_from_nanos_monotone(n1: nat, n2: nat, bus_clock: u32)
    requires
        n1 <= n2,
    ensures
        ticks_from_nanos(n1, bus_clock) <= ticks_from_nanos(n2, bus_clock),
{
    let c = timer_clock(bus_clock);
    assert(clamp_u64(n1) * c <= clamp_u64(n2) * c) by (nonlinear_arith)
        requires
            clamp_u64(n1) <= clamp_u64(n2),
    ;
    vstd::arithmetic::div_mod::lemma_div_is_ordered(
        (clamp_u64(n1) * c) as int,
        (clamp_u64(n2) * c) as int,
        31250,
    );
    vstd::arithmetic::div_mod::lemma_div_is_ordered(
        (clamp_u64(n1) * c / 31250) as int,
        (clamp_u64(n2) * c / 31250) as int,
        32000,
    );
}

/// A span of time turned into ticks and back never comes out longer than it
/// went in: both conversions round down.
pub proof fn lemma_span_round_trip_never_grows(nanos: nat, bus_clock: u32)
    requires
        nanos <= u64::MAX,
        timer_clock(bus_clock) > 0,
    ensures
        nanos_from_ticks(ticks_from_nanos(nanos, bus_clock), bus_clock) <= nanos,
{
    let c = timer_clock(bus_clock) as int;
    let x = nanos * c;
    assert(x >= 0) by (nonlinear_arith)
        requires
            nanos >= 0,
            c > 0,
            x == nanos * c,
    ;
    vstd::arithmetic::div_mod::lemma_div_denominator(x, 31250, 32000);
    let t = ticks_from_nanos(nanos, bus_clock) as int;
    assert(t == x / 1_000_000_000);
    vstd::arithmetic::div_mod::lemma_fundamental_div_mod(x, 1_000_000_000);
    assert(t * 31250 * 32000 <= c * nanos) by (nonlinear_arith)
        requires
            x == 1_000_000_000 * t + x % 1_000_000_000,
            x % 1_000_000_000 >= 0,
            x == nanos * c,
    ;
    vstd::arithmetic::div_mod::lemma_multiply_divide_le(t * 31250 * 32000, c, nanos as int);
}

/// Going back the same span of time that was just added returns to the start.
pub proof fn lemma_sub_undoes_add(t: SystemTime, nanos: u128, bus_clock: u32, later: SystemTime, back: SystemTime)
    requires
        later.0 == t.0 + ticks_from_nanos(nanos as nat, bus_clock),
        back.0 == later.0 - ticks_from_nanos(nanos as nat, bus_clock),
    ensures
        back == t,
{
}

} // verus!
