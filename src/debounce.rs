//! The debounce state machine: a raw level must persist for a full
//! stabilization interval before the debounced output commits to it.
use vstd::prelude::*;

verus! {

/// Minimum time, in milliseconds, that a raw level must persist uninterrupted
/// before the debounced output follows it.
pub const CHANGE_STATE_INTERVAL: u32 = 250;

/// State of one debounced channel.
#[derive(Clone, Copy, Debug, PartialEq, Eq, Structural)]
pub enum DebounceState {
    /// Confirmed low.
    Low,
    /// Raw level went high at `start_time`; not yet confirmed.
    PossibleHigh { start_time: u32 },
    /// Confirmed high.
    High,
    /// Raw level went low at `start_time`; not yet confirmed.
    PossibleLow { start_time: u32 },
}

/// Milliseconds from `since` to `now` on a clock that wraps at 2^32.
pub open spec fn elapsed(now: u32, since: u32) -> int {
    (now as int - since as int) % 0x1_0000_0000
}

/// The debounced output that a state stands for: the last confirmed level.
pub open spec fn output_of(s: DebounceState) -> bool {
    match s {
        DebounceState::Low => false,
        DebounceState::PossibleHigh { .. } => false,
        DebounceState::High => true,
        DebounceState::PossibleLow { .. } => true,
    }
}

/// The transition table: the state after one poll that read `raw` at `now`.
pub open spec fn next_state(s: DebounceState, raw: bool, now: u32) -> DebounceState {
    match s {
        DebounceState::Low => if raw {
            DebounceState::PossibleHigh { start_time: now }
        } else {
            DebounceState::Low
        },
        DebounceState::PossibleHigh { start_time } => if !raw {
            DebounceState::Low
        } else if elapsed(now, start_time) >= CHANGE_STATE_INTERVAL {
            DebounceState::High
        } else {
            s
        },
        DebounceState::High => if raw {
            DebounceState::High
        } else {
            DebounceState::PossibleLow { start_time: now }
        },
        DebounceState::PossibleLow { start_time } => if raw {
            DebounceState::High
        } else if elapsed(now, start_time) >= CHANGE_STATE_INTERVAL {
            DebounceState::Low
        } else {
            s
        },
    }
}

/// The state after a run of polls that all read `raw`, at `times` in order,
/// starting from `s`.
pub open spec fn run_level(s: DebounceState, raw: bool, times: Seq<u32>) -> DebounceState
    decreases times.len(),
{
    if times.len() == 0 {
        s
    } else {
        next_state(run_level(s, raw, times.drop_last()), raw, times.last())
    }
}

/// The confirmed state for `level`.
pub open spec fn stable(level: bool) -> DebounceState {
    if level {
        DebounceState::High
    } else {
        DebounceState::Low
    }
}

/// The pending state for a change towards `level` first seen at `since`.
pub open spec fn pending(level: bool, since: u32) -> DebounceState {
    if level {
        DebounceState::PossibleHigh { start_time: since }
    } else {
        DebounceState::PossibleLow { start_time: since }
    }
}

/// Every time in `times` lies less than one stabilization interval after the
/// first.
pub open spec fn within_interval(times: Seq<u32>) -> bool {
    &&& times.len() > 0
    &&& forall|i: int| 0 <= i < times.len() ==> elapsed(#[trigger] times[i], times[0])
        < CHANGE_STATE_INTERVAL
}

/// A confirmed state never moves while every reading agrees with it, however
/// the time advances.
pub proof fn lemma_stable_holds(level: bool, times: Seq<u32>)
    ensures
        run_level(stable(level), level, times) == stable(level),
        output_of(run_level(stable(level), level, times)) == level,
    decreases times.len(),
{
    if times.len() > 0 {
        lemma_stable_holds(level, times.drop_last());
    }
}

/// Readings contrary to a confirmed level, all within one interval of the
/// first, keep the channel pending since that first reading.
proof fn lemma_pending_holds(level: bool, times: Seq<u32>)
    requires
        within_interval(times),
    ensures
        run_level(stable(!level), level, times) == pending(level, times[0]),
    decreases times.len(),
{
    let pre = times.drop_last();
    if pre.len() > 0 {
        assert(forall|i: int| 0 <= i < pre.len() ==> pre[i] == times[i]);
        lemma_pending_holds(level, pre);
        assert(elapsed(times.last(), times[0]) < CHANGE_STATE_INTERVAL);
    } else {
        assert(run_level(stable(!level), level, pre) == stable(!level));
    }
}

/// The same, for every prefix of the run.
proof fn lemma_pending_prefixes(level: bool, times: Seq<u32>)
    requires
        within_interval(times),
    ensures
        forall|k: int|
            1 <= k <= times.len() ==> run_level(stable(!level), level, #[trigger] times.take(k))
                == pending(level, times[0]),
{
    assert forall|k: int| 1 <= k <= times.len() implies run_level(
        stable(!level),
        level,
        #[trigger] times.take(k),
    ) == pending(level, times[0]) by {
        let pre = times.take(k);
        assert(forall|i: int| 0 <= i < pre.len() ==> pre[i] == times[i]);
        lemma_pending_holds(level, pre);
    }
}

/// From confirmed low, high readings that all fall within one interval of the
/// first, followed by one low reading, keep the output low at every poll and
/// end confirmed low.
pub proof fn lemma_short_press_ignored(times: Seq<u32>, release: u32)
    requires
        within_interval(times),
    ensures
        forall|k: int|
            1 <= k <= times.len() ==> !output_of(
                #[trigger] run_level(DebounceState::Low, true, times.take(k)),
            ),
        next_state(run_level(DebounceState::Low, true, times), false, release)
            == DebounceState::Low,
{
    lemma_pending_prefixes(true, times);
    lemma_pending_holds(true, times);
}

/// From confirmed high, low readings that all fall within one interval of the
/// first, followed by one high reading, keep the output high at every poll and
/// end confirmed high.
pub proof fn lemma_short_release_ignored(times: Seq<u32>, press: u32)
    requires
        within_interval(times),
    ensures
        forall|k: int|
            1 <= k <= times.len() ==> output_of(
                #[trigger] run_level(DebounceState::High, false, times.take(k)),
            ),
        next_state(run_level(DebounceState::High, false, times), true, press)
            == DebounceState::High,
{
    lemma_pending_prefixes(false, times);
    lemma_pending_holds(false, times);
}

/// From confirmed low, high readings that stay within one interval of the
/// first keep the output low; the first further high reading at least one
/// interval after the first confirms high.
pub proof fn lemma_long_press_confirmed(times: Seq<u32>, confirm: u32)
    requires
        within_interval(times),
        elapsed(confirm, times[0]) >= CHANGE_STATE_INTERVAL,
    ensures
        forall|k: int|
            1 <= k <= times.len() ==> !output_of(
                #[trigger] run_level(DebounceState::Low, true, times.take(k)),
            ),
        run_level(DebounceState::Low, true, times.push(confirm)) == DebounceState::High,
        output_of(run_level(DebounceState::Low, true, times.push(confirm))),
{
    lemma_pending_prefixes(true, times);
    lemma_pending_holds(true, times);
    assert(times.push(confirm).drop_last() == times);
}

/// The wrapping difference recovers any span shorter than the counter's
/// period, even when the later reading has wrapped past zero.
pub proof fn lemma_elapsed_across_wrap(since: u32, span: u32)
    ensures
        elapsed(((since + span) % 0x1_0000_0000) as u32, since) == span,
{
    let later: int = since + span;
    if later >= 0x1_0000_0000 {
        assert(later % 0x1_0000_0000 == later - 0x1_0000_0000);
    } else {
        assert(later % 0x1_0000_0000 == later);
    }
}

/// The readings taken `offsets` milliseconds after `base`, on a clock that
/// wraps at 2^32.
pub open spec fn shifted(base: u32, offsets: Seq<u32>) -> Seq<u32> {
    offsets.map_values(|o: u32| ((base + o) % 0x1_0000_0000) as u32)
}

/// Confirmation does not depend on where the clock stands: high readings
/// taken at offsets below one interval from a start at `base` keep the output
/// low, and a high reading at an offset of at least one interval confirms
/// high, also where the readings wrap past zero.
pub proof fn lemma_long_press_confirmed_from(base: u32, offsets: Seq<u32>, confirm: u32)
    requires
        offsets.len() > 0,
        offsets[0] == 0,
        forall|i: int| 0 <= i < offsets.len() ==> #[trigger] offsets[i] < CHANGE_STATE_INTERVAL,
        confirm >= CHANGE_STATE_INTERVAL,
    ensures
        forall|k: int|
            1 <= k <= offsets.len() ==> !output_of(
                #[trigger] run_level(DebounceState::Low, true, shifted(base, offsets).take(k)),
            ),
        run_level(
            DebounceState::Low,
            true,
            shifted(base, offsets).push(((base + confirm) % 0x1_0000_0000) as u32),
        ) == DebounceState::High,
{
    let times = shifted(base, offsets);
    lemma_elapsed_across_wrap(base, 0);
    assert(times[0] == base);
    assert forall|i: int| 0 <= i < times.len() implies elapsed(#[trigger] times[i], times[0])
        < CHANGE_STATE_INTERVAL by {
        lemma_elapsed_across_wrap(base, offsets[i]);
    }
    lemma_elapsed_across_wrap(base, confirm);
    lemma_long_press_confirmed(times, ((base + confirm) % 0x1_0000_0000) as u32);
}

/// Wrapping difference `now - since`, the time elapsed between two readings.
pub fn elapsed_ms(now: u32, since: u32) -> (r: u32)
    ensures
        r == elapsed(now, since),
{
    now.wrapping_sub(since)
}

/// One debounced input channel.
pub struct Debouncer {
    state: DebounceState,
}

impl Debouncer {
    /// A channel that starts confirmed low.
    pub fn new() -> (d: Debouncer)
        ensures
            d.state() == DebounceState::Low,
    {
        Debouncer { state: DebounceState::Low }
    }

    /// The current state of the channel.
    pub closed spec fn state(&self) -> DebounceState {
        self.state
    }

    /// The current state of the channel.
    pub fn current_state(&self) -> (s: DebounceState)
        ensures
            s == self.state(),
    {
        self.state
    }

    /// Advances the channel by one poll that read the raw level `input_high` at
    /// `current_time`, and returns the debounced output.
    pub fn is_high(&mut self, current_time: u32, input_high: bool) -> (r: bool)
        ensures
            final(self).state() == next_state(old(self).state(), input_high, current_time),
            r == output_of(final(self).state()),
    {
        match self.state {
            DebounceState::Low => {
                if input_high {
                    self.state = DebounceState::PossibleHigh { start_time: current_time };
                }
                false
            },
            DebounceState::PossibleHigh { start_time } => {
                if input_high && elapsed_ms(current_time, start_time) >= CHANGE_STATE_INTERVAL {
                    self.state = DebounceState::High;
                    true
                } else if !input_high {
                    self.state = DebounceState::Low;
                    false
                } else {
                    false
                }
            },
            DebounceState::High => {
                if !input_high {
                    self.state = DebounceState::PossibleLow { start_time: current_time };
                }
                true
            },
            DebounceState::PossibleLow { start_time } => {
                if !input_high && elapsed_ms(current_time, start_time) >= CHANGE_STATE_INTERVAL {
                    self.state = DebounceState::Low;
                    false
                } else if input_high {
                    self.state = DebounceState::High;
                    true
                } else {
                    true
                }
            },
        }
    }

    /// Advances the channel by one poll whose pin read gave `reading`; a failed
    /// read (`None`) counts as low for this poll only.
    pub fn poll(&mut self, current_time: u32, reading: Option<bool>) -> (r: bool)
        ensures
            final(self).state() == next_state(
                old(self).state(),
                reading == Some(true),
                current_time,
            ),
            r == output_of(final(self).state()),
    {
        let input_high = match reading {
            Some(level) => level,
            None => false,
        };
        self.is_high(current_time, input_high)
    }
}

} // verus!
