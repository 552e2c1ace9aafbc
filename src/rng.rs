//! A small pseudo-random generator that needs no allocation and no
//! operating system; it stands in for a sensor while testing.
use vstd::prelude::*;

verus! {

/// One step of the generator: a wrapping multiply, add and subtract, each
/// followed by a shift-xor that mixes the bits.
pub open spec fn scramble(s: u32) -> u32 {
    let a = ((s * 0x6C8E9CF5int) % 0x1_0000_0000) as u32;
    let b = a ^ (a >> 13u32);
    let c = ((b + 0xB5297A4Dint) % 0x1_0000_0000) as u32;
    let d = c ^ (c << 17u32);
    let e = ((d - 0xD6E8FEB8int) % 0x1_0000_0000) as u32;
    e ^ (e >> 5u32)
}

/// Pseudo-random generator whose whole state is one 32-bit word.
pub struct LcgRng {
    state: u32,
}

impl LcgRng {
    /// The generator's current state.
    pub closed spec fn state(&self) -> u32 {
        self.state
    }

    /// A generator seeded with `seed`.
    pub fn new(seed: u32) -> (r: LcgRng)
        ensures
            r.state() == seed,
    {
        LcgRng { state: seed }
    }

    /// Advances the state by one step and returns the new state.
    pub fn next_u32(&mut self) -> (r: u32)
        ensures
            final(self).state() == scramble(old(self).state()),
            r == final(self).state(),
    {
        let a: u32 = self.state.wrapping_mul(0x6C8E9CF5);
        let b: u32 = a ^ (a >> 13u32);
        let c: u32 = b.wrapping_add(0xB5297A4D);
        let d: u32 = c ^ (c << 17u32);
        let e: u32 = d.wrapping_sub(0xD6E8FEB8);
        let f: u32 = e ^ (e >> 5u32);
        proof {
            let cs: int = b + 0xB5297A4Dint;
            assert(cs % 0x1_0000_0000 == if cs > u32::MAX { cs - 0x1_0000_0000 } else { cs });
            let es: int = d - 0xD6E8FEB8int;
            assert(es % 0x1_0000_0000 == if es < 0 { es + 0x1_0000_0000 } else { es });
        }
        self.state = f;
        f
    }

    /// The next value reduced modulo `bound`.
    pub fn rand_bounded_u32(&mut self, bound: u32) -> (r: u32)
        requires
            bound > 0,
        ensures
            final(self).state() == scramble(old(self).state()),
            r == final(self).state() % bound,
    {
        self.next_u32() % bound
    }
}

} // verus!
