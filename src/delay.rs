//! Delays measured with the SysTick timer.
//!
//! The timer counts down a 24-bit reload value once per clock cycle and
//! flags each wrap. A delay is planned as a number of full 2^24-cycle wraps
//! followed by one shorter count; waiting for the wraps is up to the caller
//! that owns the timer.
use vstd::prelude::*;

verus! {

/// Clock of the SysTick counter.
#[derive(Clone, Copy, Debug, PartialEq, Eq)]
pub enum SystClkSource {
    /// The processor clock.
    Core,
    /// The external reference clock.
    External,
}

/// Cycles in one full wrap of the 24-bit counter.
pub const WRAP_CYCLES: u64 = 0x100_0000;

/// The largest number of milliseconds whose microseconds fit in a `u32`.
pub const MAX_MS_CHUNK: u32 = 4294967;

/// The timer cycles of a delay of `us` microseconds on a clock of
/// `frequency` Hz, rounded down.
pub open spec fn delay_ticks(us: u32, frequency: u32) -> int {
    (us as int) * (frequency as int) / 1_000_000
}

/// How the timer runs one delay: `full_cycles` wraps of the whole counter,
/// then, if `last_reload` is set, one count down from that reload value.
#[derive(Clone, Copy, Debug, PartialEq, Eq)]
pub struct DelayPlan {
    /// Full wraps of the 24-bit counter.
    pub full_cycles: u64,
    /// Reload value of the final, shorter count.
    pub last_reload: Option<u32>,
}

/// The plan of a delay of `ticks` cycles: as many full wraps as fit, then a
/// count of the rest, which is left out when it is under two cycles.
pub open spec fn plan_of(ticks: int) -> DelayPlan {
    let rest = ticks % (WRAP_CYCLES as int);
    DelayPlan {
        full_cycles: (ticks / (WRAP_CYCLES as int)) as u64,
        last_reload: if rest > 1 {
            Some((rest - 1) as u32)
        } else {
            None
        },
    }
}

/// The microsecond delays, each fitting in a `u32`, that make up a delay of
/// `ms` milliseconds: whole chunks of `MAX_MS_CHUNK` ms while more than that
/// is left, then the rest.
pub open spec fn ms_chunks(ms: nat) -> Seq<u32>
    decreases ms,
{
    if ms > MAX_MS_CHUNK {
        seq![(MAX_MS_CHUNK * 1000) as u32] + ms_chunks((ms - MAX_MS_CHUNK) as nat)
    } else {
        seq![(ms * 1000) as u32]
    }
}

/// A delay provider driven by the SysTick timer.
pub struct Delay {
    frequency: u32,
    clock_source: SystClkSource,
}

impl Delay {
    /// The frequency of the timer's clock, in Hz.
    pub closed spec fn frequency(&self) -> u32 {
        self.frequency
    }

    /// The clock that drives the timer.
    pub closed spec fn clock_source(&self) -> SystClkSource {
        self.clock_source
    }

    /// A delay provider on the processor clock, whose frequency (that of
    /// the AHB bus) is `ahb_frequency` Hz.
    pub fn new(ahb_frequency: u32) -> (r: Self)
        ensures
            r.frequency() == ahb_frequency,
            r.clock_source() == SystClkSource::Core,
    {
        Self::with_source(ahb_frequency, SystClkSource::Core)
    }

    /// A delay provider on `clock_source`, whose frequency is `frequency` Hz.
    pub fn with_source(frequency: u32, clock_source: SystClkSource) -> (r: Self)
        ensures
            r.frequency() == frequency,
            r.clock_source() == clock_source,
    {
        Delay { frequency, clock_source }
    }

    /// The clock that the timer must be set to.
    pub fn source(&self) -> (r: SystClkSource)
        ensures
            r == self.clock_source(),
    {
        self.clock_source
    }

    /// Plans a delay of `us` microseconds.
    pub fn delay_us(&self, us: u32) -> (r: DelayPlan)
        ensures
            r == plan_of(delay_ticks(us, self.frequency())),
    {
        let frequency = self.frequency;
        assert((us as int) * (frequency as int) <= 0xFFFF_FFFF * 0xFFFF_FFFF) by (nonlinear_arith)
            requires
                us <= 0xFFFF_FFFF,
                frequency <= 0xFFFF_FFFF,
        ;
        let product = (us as u64) * (frequency as u64);
        let ticks = product / 1_000_000;
        let full_cycles = ticks >> 24;
        let rest = ticks & 0xffffff;
        assert(ticks >> 24u64 == ticks / 0x100_0000u64 && ticks & 0xff_ffffu64 == ticks
            % 0x100_0000u64) by (bit_vector);
        let last_reload = if rest > 1 {
            Some((rest - 1) as u32)
        } else {
            None
        };
        DelayPlan { full_cycles, last_reload }
    }

    /// Plans a delay of `ms` milliseconds, as consecutive delays of the
    /// microsecond chunks that fit in a `u32`.
    pub fn delay_ms(&self, ms: u32) -> (r: Vec<DelayPlan>)
        ensures
            r@.len() == ms_chunks(ms as nat).len(),
            forall|i: int|
                0 <= i < r@.len() ==> r@[i] == plan_of(
                    delay_ticks(ms_chunks(ms as nat)[i], self.frequency()),
                ),
    {
        let mut plans: Vec<DelayPlan> = Vec::new();
        let mut left = ms;
        while left > MAX_MS_CHUNK
            invariant
                left <= ms,
                forall|i: int|
                    0 <= i < plans@.len() ==> plans@[i] == plan_of(
                        delay_ticks((MAX_MS_CHUNK * 1000) as u32, self.frequency()),
                    ),
                ms_chunks(ms as nat) =~= Seq::new(
                    plans@.len(),
                    |i: int| (MAX_MS_CHUNK * 1000) as u32,
                ) + ms_chunks(left as nat),
            decreases left,
        {
            plans.push(self.delay_us(4294967000));
            left = left - MAX_MS_CHUNK;
        }
        plans.push(self.delay_us(left * 1000));
        plans
    }

    /// Plans a delay of `ns` nanoseconds, rounded up to whole microseconds.
    pub fn delay_ns(&self, ns: u32) -> (r: DelayPlan)
        ensures
            r == plan_of(delay_ticks(((ns as int + 999) / 1000) as u32, self.frequency())),
    {
        let us = if ns % 1000 == 0 {
            ns / 1000
        } else {
            ns / 1000 + 1
        };
        self.delay_us(us)
    }
}

} // verus!
