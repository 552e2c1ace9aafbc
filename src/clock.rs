//! The millisecond clock: a 32-bit counter that a periodic timer interrupt
//! advances by a fixed whole number of milliseconds per tick.
use vstd::prelude::*;

verus! {

/// The value of a counter that starts at zero and has been advanced `n`
/// times by `step`, wrapping at 2^32.
pub open spec fn count_after(step: u32, n: nat) -> u32
    decreases n,
{
    if n == 0 {
        0
    } else {
        ((count_after(step, (n - 1) as nat) + step) % 0x1_0000_0000) as u32
    }
}

/// Counting by `step` `n` times lands on `step * n` modulo 2^32.
pub proof fn lemma_count_after(step: u32, n: nat)
    ensures
        count_after(step, n) == (step * n) % 0x1_0000_0000,
    decreases n,
{
    if n > 0 {
        lemma_count_after(step, (n - 1) as nat);
        let prev: int = step * (n - 1);
        assert(step * n == prev + step) by (nonlinear_arith)
            requires
                prev == step * (n - 1),
        ;
        assert((prev % 0x1_0000_0000 + step) % 0x1_0000_0000 == (prev + step) % 0x1_0000_0000)
            by (nonlinear_arith);
    } else {
        assert(step * n == 0) by (nonlinear_arith)
            requires
                n == 0,
        ;
    }
}

/// Length in whole milliseconds of one period of a timer that counts
/// `prescaler * (compare + 1)` cycles of a `cpu_hz` clock.
pub open spec fn tick_period_ms(cpu_hz: u32, prescaler: u32, compare: u32) -> int {
    (prescaler * (compare + 1) * 1000) / cpu_hz as int
}

/// Whether that period is a positive whole number of milliseconds that fits
/// the counter.
pub open spec fn valid_tick_config(cpu_hz: u32, prescaler: u32, compare: u32) -> bool {
    &&& cpu_hz > 0
    &&& (prescaler * (compare + 1) * 1000) % (cpu_hz as int) == 0
    &&& 0 < tick_period_ms(cpu_hz, prescaler, compare) <= u32::MAX
}

/// The per-tick increment of a timer configured with `prescaler` and
/// `compare` on a `cpu_hz` clock, or `None` where the period is not a
/// positive whole number of milliseconds.
pub fn tick_increment_ms(cpu_hz: u32, prescaler: u32, compare: u32) -> (r: Option<u32>)
    ensures
        valid_tick_config(cpu_hz, prescaler, compare) <==> r.is_some(),
        r matches Some(step) ==> step == tick_period_ms(cpu_hz, prescaler, compare),
{
    if cpu_hz == 0 {
        return None;
    }
    let p: u128 = prescaler as u128;
    let c: u128 = compare as u128 + 1;
    assert(p * c <= 0xffff_ffff * 0x1_0000_0000) by (nonlinear_arith)
        requires
            p <= 0xffff_ffff,
            c <= 0x1_0000_0000,
    ;
    let cycles: u128 = p * c * 1000;
    let hz: u128 = cpu_hz as u128;
    if cycles % hz != 0 {
        return None;
    }
    let period: u128 = cycles / hz;
    if period == 0 || period > u32::MAX as u128 {
        return None;
    }
    Some(period as u32)
}

/// The shared millisecond counter.
pub struct MillisClock {
    count: u32,
    step: u32,
    ticks: Ghost<nat>,
}

impl MillisClock {
    /// Milliseconds added by each tick.
    pub closed spec fn step(&self) -> u32 {
        self.step
    }

    /// Ticks handled since the counter was reset.
    pub closed spec fn ticks(&self) -> nat {
        self.ticks@
    }

    /// The counter holds what `ticks()` ticks of `step()` add up to.
    #[verifier::type_invariant]
    spec fn wf(&self) -> bool {
        self.count == count_after(self.step, self.ticks@)
    }

    /// A counter reset to zero that advances by `step_ms` per tick.
    pub fn new(step_ms: u32) -> (c: MillisClock)
        ensures
            c.step() == step_ms,
            c.ticks() == 0,
    {
        MillisClock { count: 0, step: step_ms, ticks: Ghost(0) }
    }

    /// A counter reset to zero for a timer configured with `prescaler` and
    /// `compare` on a `cpu_hz` clock; `None` where that configuration does not
    /// give a positive whole number of milliseconds per tick.
    pub fn init(cpu_hz: u32, prescaler: u32, compare: u32) -> (r: Option<MillisClock>)
        ensures
            valid_tick_config(cpu_hz, prescaler, compare) <==> r.is_some(),
            r matches Some(c) ==> {
                &&& c.ticks() == 0
                &&& c.step() == tick_period_ms(cpu_hz, prescaler, compare)
            },
    {
        match tick_increment_ms(cpu_hz, prescaler, compare) {
            Some(step) => Some(MillisClock::new(step)),
            None => None,
        }
    }

    /// The timer interrupt: adds one step to the counter, wrapping at 2^32.
    pub fn on_tick(&mut self)
        ensures
            final(self).step() == old(self).step(),
            final(self).ticks() == old(self).ticks() + 1,
    {
        proof {
            use_type_invariant(&*self);
        }
        let ghost sum: int = self.count + self.step;
        assert(sum % 0x1_0000_0000 == if sum > u32::MAX { sum - 0x1_0000_0000 } else { sum });
        *self = MillisClock {
            count: self.count.wrapping_add(self.step),
            step: self.step,
            ticks: Ghost(self.ticks@ + 1),
        };
    }

    /// The current reading: `step() * ticks()` modulo 2^32.
    pub fn now(&self) -> (r: u32)
        ensures
            r == (self.step() * self.ticks()) % 0x1_0000_0000,
    {
        proof {
            use_type_invariant(self);
            lemma_count_after(self.step, self.ticks@);
        }
        self.count
    }
}

} // verus!
