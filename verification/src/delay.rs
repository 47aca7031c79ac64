//! Blocking delays counted by the SysTick timer at the CPU clock.
//!
//! SysTick counts down from a 24-bit reload value. A delay is split into whole
//! periods of 2^24 ticks and one shorter period; longer units are split into
//! chunks that fit the shorter unit's 32-bit argument.
use vstd::prelude::*;

use crate::sysc::clock::Clocks;

verus! {

/// Ticks in one full SysTick period (a 24-bit counter).
pub const SYSTICK_PERIOD: u64 = 0x100_0000;

/// A delay counter running at the CPU clock (ICLK).
pub struct Delay {
    frequency: u32,
}

/// How SysTick counts one delay: `full_periods` wraps with reload 0xFF_FFFF,
/// then, when there is one, a last period with reload `last_reload`.
#[derive(Copy, Clone, Debug, PartialEq, Eq, Structural)]
pub struct SysTickWait {
    pub full_periods: u64,
    pub last_reload: Option<u32>,
}

/// A long delay split into `repeat` delays of `each` units of the next finer unit,
/// followed by one delay of `last` such units.
#[derive(Copy, Clone, Debug, PartialEq, Eq, Structural)]
pub struct DelaySplit {
    pub repeat: u32,
    pub each: u32,
    pub last: u32,
}

/// The SysTick ticks that cover `ns` nanoseconds at `hz`, rounded up.
pub open spec fn spec_delay_ticks(hz: u32, ns: u32) -> int {
    (ns as int * hz as int + 999_999_999) / 1_000_000_000
}

/// How SysTick counts a delay of `ns` nanoseconds at `hz`: the whole periods of
/// 2^24 ticks, then the remaining ticks as one period when there are more than one.
pub open spec fn spec_delay_ns(hz: u32, ns: u32) -> SysTickWait {
    let t = spec_delay_ticks(hz, ns);
    SysTickWait {
        full_periods: (t / SYSTICK_PERIOD as int) as u64,
        last_reload: if t % SYSTICK_PERIOD as int > 1 {
            Some((t % SYSTICK_PERIOD as int - 1) as u32)
        } else {
            None
        },
    }
}

/// The largest count of one unit whose value in the next finer unit (times 1000)
/// fits 32 bits.
pub const CHUNK: u32 = 4_294_967;

/// `n` units split into chunks of `CHUNK`: as many whole chunks as leave at most
/// one chunk over, then the rest, each chunk counted in the finer unit.
pub open spec fn spec_split(n: u32) -> DelaySplit {
    let repeat: int = if n == 0 { 0 } else { (n - 1) / CHUNK as int };
    DelaySplit {
        repeat: repeat as u32,
        each: 4_294_967_000,
        last: ((n - repeat * CHUNK) * 1000) as u32,
    }
}

fn split(n: u32) -> (s: DelaySplit)
    ensures
        s == spec_split(n),
        s.repeat as int * s.each as int + s.last as int == n as int * 1000,
{
    let mut rest: u32 = n;
    let mut repeat: u32 = 0;
    while rest > CHUNK
        invariant
            rest <= n,
            n > 0 ==> rest > 0,
            rest as int + repeat as int * CHUNK as int == n as int,
        decreases rest,
    {
        rest = rest - CHUNK;
        repeat = repeat + 1;
    }
    let ghost r: int = if n == 0 { 0 } else { (n - 1) / CHUNK as int };
    assert(repeat as int == r) by (nonlinear_arith)
        requires
            rest <= CHUNK,
            rest as int + repeat as int * CHUNK as int == n as int,
            r == (if n == 0 { 0 } else { (n - 1) / CHUNK as int }),
            n == 0 ==> rest == 0,
            n > 0 ==> rest > 0,
    ;
    DelaySplit { repeat, each: 4_294_967_000, last: rest * 1000 }
}

impl Delay {
    /// The clock that the delays count.
    pub closed spec fn spec_frequency(&self) -> u32 {
        self.frequency
    }

    /// A delay counter at the CPU clock of `clocks`.
    pub fn new(clocks: &Clocks) -> (d: Delay)
        ensures
            d.spec_frequency() == clocks.spec_freqs().ick,
    {
        let frequency = clocks.get_freqs().ick;
        Delay { frequency }
    }

    /// How SysTick counts a delay of `ns` nanoseconds.
    pub fn delay_ns(&self, ns: u32) -> (w: SysTickWait)
        ensures
            w == spec_delay_ns(self.spec_frequency(), ns),
    {
        let a: u128 = ns as u128;
        let b: u128 = self.frequency as u128;
        assert(a * b <= 0xFFFF_FFFE_0000_0001) by (nonlinear_arith)
            requires
                a <= 0xFFFF_FFFF,
                b <= 0xFFFF_FFFF,
        ;
        let q: u128 = (a * b + 999_999_999u128) / 1_000_000_000u128;
        assert(q < 0x1_0000_0000_0000_0000) by (nonlinear_arith)
            requires
                a * b <= 0xFFFF_FFFE_0000_0001,
                q == (a * b + 999_999_999) / 1_000_000_000,
        ;
        let ticks: u64 = q as u64;
        let full: u64 = ticks >> 24u64;
        let rem: u64 = ticks & 0x00FF_FFFFu64;
        assert(full == ticks / 0x100_0000 && rem == ticks % 0x100_0000) by (bit_vector)
            requires
                full == ticks >> 24u64,
                rem == ticks & 0x00FF_FFFFu64,
        ;
        let last_reload = if rem > 1 { Some((rem - 1) as u32) } else { None };
        SysTickWait { full_periods: full, last_reload }
    }

    /// Splits a delay of `us` microseconds into nanosecond delays: `repeat` times
    /// `each` ns, then `last` ns, `us * 1000` ns in all.
    pub fn delay_us(&self, us: u32) -> (s: DelaySplit)
        ensures
            s == spec_split(us),
            s.repeat as int * s.each as int + s.last as int == us as int * 1000,
    {
        split(us)
    }

    /// Splits a delay of `ms` milliseconds into microsecond delays: `repeat` times
    /// `each` us, then `last` us, `ms * 1000` us in all.
    pub fn delay_ms(&self, ms: u32) -> (s: DelaySplit)
        ensures
            s == spec_split(ms),
            s.repeat as int * s.each as int + s.last as int == ms as int * 1000,
    {
        split(ms)
    }
}

/// SysTick counts exactly the ticks of the delay, in whole periods and one last
/// period, except a single tick left over after the whole periods, which is not
/// counted.
pub proof fn lemma_delay_ns_counts_ticks(hz: u32, ns: u32)
    ensures
        ({
            let t = spec_delay_ticks(hz, ns);
            let w = spec_delay_ns(hz, ns);
            let last: int = match w.last_reload {
                Some(r) => r + 1,
                None => 0,
            };
            w.full_periods * SYSTICK_PERIOD + last == if t % SYSTICK_PERIOD as int == 1 { t - 1 } else { t }
        }),
{
    let p: int = ns as int * hz as int;
    assert(0 <= p <= 0xFFFF_FFFE_0000_0001) by (nonlinear_arith)
        requires
            p == ns as int * hz as int,
            0 <= ns <= 0xFFFF_FFFF,
            0 <= hz <= 0xFFFF_FFFF,
    ;
    let t = spec_delay_ticks(hz, ns);
    assert(0 <= t < 0x1_0000_0000_0000_0000);
    let q = t / SYSTICK_PERIOD as int;
    let m = t % SYSTICK_PERIOD as int;
    assert(t == q * SYSTICK_PERIOD + m && 0 <= m < SYSTICK_PERIOD);
    assert(0 <= q < 0x1_0000_0000_0000_0000);
}

} // verus!
