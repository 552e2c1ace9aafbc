//! A simulated EMG signal for bench testing without a sensor, and the map
//! from a 10-bit reading to a servo angle.
use vstd::prelude::*;

verus! {

/// Muscle activity level of the simulated signal.
#[derive(Clone, Copy, Debug, PartialEq, Eq, Structural)]
pub enum EmgState {
    Relaxed,
    Intermediate,
    Clenched,
}

/// Largest value of a 10-bit reading.
pub const READING_MAX: u16 = 1023;

/// The activity level picked by `noise` when the level changes.
pub open spec fn state_for_noise(noise: u16) -> EmgState {
    if noise % 100 < 50 {
        EmgState::Relaxed
    } else if noise % 100 < 80 {
        EmgState::Intermediate
    } else {
        EmgState::Clenched
    }
}

/// Centre of the signal at an activity level.
pub open spec fn baseline(s: EmgState) -> int {
    match s {
        EmgState::Relaxed => 200,
        EmgState::Intermediate => 620,
        EmgState::Clenched => 940,
    }
}

/// Half the width of the jitter band at an activity level.
pub open spec fn amplitude(s: EmgState) -> int {
    match s {
        EmgState::Relaxed => 50,
        EmgState::Intermediate => 30,
        EmgState::Clenched => 10,
    }
}

/// A small square-wave artifact that follows the phase.
pub open spec fn artifact(phase: u16) -> int {
    if phase % 256 < 128 {
        3
    } else {
        -3
    }
}

/// `v` limited to the range of a 10-bit reading.
pub open spec fn clamp_reading(v: int) -> int {
    if v < 0 {
        0
    } else if v > 1023 {
        1023
    } else {
        v
    }
}

/// The ordinary (non-spike) sample at an activity level and phase.
pub open spec fn emg_sample(s: EmgState, phase: u16, noise: u16) -> int {
    clamp_reading(
        baseline(s) + (noise as int % (2 * amplitude(s))) - amplitude(s) + artifact(phase),
    )
}

/// Spike steps left once a spike may have been triggered: a new spike of
/// `noise % 5 + 1` steps starts when none is running and `noise` is a
/// multiple of 200.
pub open spec fn spike_armed(spike_remaining: u8, noise: u16) -> int {
    if spike_remaining == 0 && noise % 200 == 0 {
        noise % 5 + 1
    } else {
        spike_remaining as int
    }
}

/// Simulated EMG source: a noisy level that changes every thousand samples,
/// with occasional full-scale spikes.
pub struct EmgSimulator {
    step_count: u32,
    state: EmgState,
    phase: u16,
    spike_remaining: u8,
}

impl EmgSimulator {
    /// Samples produced so far, modulo 2^32.
    pub closed spec fn step_count(&self) -> u32 {
        self.step_count
    }

    /// Current activity level.
    pub closed spec fn level(&self) -> EmgState {
        self.state
    }

    /// Phase of the artifact wave.
    pub closed spec fn phase(&self) -> u16 {
        self.phase
    }

    /// Steps left in the running spike.
    pub closed spec fn spike_remaining(&self) -> u8 {
        self.spike_remaining
    }

    /// A relaxed simulator at step zero with no spike running.
    pub fn new() -> (r: EmgSimulator)
        ensures
            r.step_count() == 0,
            r.level() == EmgState::Relaxed,
            r.phase() == 0,
            r.spike_remaining() == 0,
    {
        EmgSimulator { step_count: 0, state: EmgState::Relaxed, phase: 0, spike_remaining: 0 }
    }

    /// The next sample, driven by the random value `noise`.
    pub fn next(&mut self, noise: u16) -> (r: u16)
        ensures
            final(self).step_count() == (old(self).step_count() + 1) % 0x1_0000_0000,
            final(self).phase() == (old(self).phase() + 17) % 0x1_0000,
            final(self).level() == if final(self).step_count() % 1000 == 0 {
                state_for_noise(noise)
            } else {
                old(self).level()
            },
            spike_armed(old(self).spike_remaining(), noise) > 0 ==> {
                &&& final(self).spike_remaining() == spike_armed(
                    old(self).spike_remaining(),
                    noise,
                ) - 1
                &&& r == READING_MAX
            },
            spike_armed(old(self).spike_remaining(), noise) == 0 ==> {
                &&& final(self).spike_remaining() == 0
                &&& r == emg_sample(final(self).level(), final(self).phase(), noise)
            },
    {
        self.step_count = self.step_count.wrapping_add(1);
        self.phase = self.phase.wrapping_add(17);
        proof {
            let sc: int = old(self).step_count + 1;
            assert(sc % 0x1_0000_0000 == if sc > u32::MAX { sc - 0x1_0000_0000 } else { sc });
            let ph: int = old(self).phase + 17;
            assert(ph % 0x1_0000 == if ph > u16::MAX { ph - 0x1_0000 } else { ph });
        }

        if self.step_count % 1000 == 0 {
            let r: u16 = noise % 100;
            self.state = if r < 50 {
                EmgState::Relaxed
            } else if r < 80 {
                EmgState::Intermediate
            } else {
                EmgState::Clenched
            };
        }

        if self.spike_remaining == 0 && (noise % 200 == 0) {
            self.spike_remaining = (noise % 5 + 1) as u8;
        }

        if self.spike_remaining > 0 {
            self.spike_remaining -= 1;
            return READING_MAX;
        }

        let (baseline, amplitude): (u16, u16) = match self.state {
            EmgState::Relaxed => (200, 50),
            EmgState::Intermediate => (620, 30),
            EmgState::Clenched => (940, 10),
        };

        let jitter: i16 = ((noise % (2 * amplitude)) as i16) - (amplitude as i16);
        let artifact: i16 = if (self.phase % 256) < 128 {
            3
        } else {
            -3
        };
        let mut signal: i16 = baseline as i16 + jitter + artifact;
        if signal < 0 {
            signal = 0;
        } else if signal > 1023 {
            signal = 1023;
        }
        signal as u16
    }
}

/// Maps a 10-bit reading onto 0..=90 degrees, rounding down; a reading above
/// 1023 maps past 90, wrapped into a byte.
pub fn fron_1023_to_90(number: u16) -> (r: u8)
    ensures
        r == ((number * 90) / 1023) % 256,
{
    let scaled: u32 = (number as u32) * 90 / 1023;
    let r: u8 = #[verifier::truncate] (scaled as u8);
    assert(r == scaled % 256) by (bit_vector)
        requires
            r == #[verifier::truncate] (scaled as u8),
    ;
    r
}

} // verus!
