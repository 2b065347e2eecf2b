use vstd::prelude::*;
use crate::dmx::{UNIVERSE_SIZE, zeroed_universe};

verus! {

/// One universe of `UNIVERSE_SIZE` channels, addressed by an 8-bit channel
/// number, whose frame goes to a single serial device.
pub struct DMX512 {
    universe: Vec<u8>,
}

impl View for DMX512 {
    type V = Seq<u8>;

    closed spec fn view(&self) -> Seq<u8> {
        self.universe@
    }
}

impl DMX512 {
    /// The universe always holds `UNIVERSE_SIZE` channels.
    pub open spec fn wf(&self) -> bool {
        self@.len() == UNIVERSE_SIZE
    }

    /// A universe with every channel at zero.
    pub fn new() -> (r: DMX512)
        ensures
            r.wf(),
            r@ == Seq::new(UNIVERSE_SIZE as nat, |j: int| 0u8),
    {
        DMX512 { universe: zeroed_universe() }
    }

    /// Writes `value` into channel `channel`; no other channel changes.
    pub fn set_channel(&mut self, channel: u8, value: u8)
        requires
            old(self).wf(),
        ensures
            final(self).wf(),
            final(self)@ == old(self)@.update(channel as int, value),
    {
        self.universe.set(channel as usize, value);
    }

    /// The value of channel `channel`.
    pub fn get_channel(&self, channel: u8) -> (r: u8)
        requires
            self.wf(),
        ensures
            r == self@[channel as int],
    {
        self.universe[channel as usize]
    }

    /// The bytes that a send writes to the device: every channel, in order.
    pub fn frame(&self) -> (r: Vec<u8>)
        ensures
            r@ == self@,
    {
        let mut out: Vec<u8> = Vec::new();
        let mut i: usize = 0;
        while i < self.universe.len()
            invariant
                i <= self@.len(),
                out@ == self@.subrange(0, i as int),
            decreases self@.len() - i,
        {
            out.push(self.universe[i]);
            i = i + 1;
            assert(out@ =~= self@.subrange(0, i as int));
        }
        assert(out@ =~= self@);
        out
    }
}

} // verus!
