use vstd::prelude::*;

verus! {

/// Number of channels in one universe.
pub const UNIVERSE_SIZE: usize = 512;

/// Number of universes a controller registers when it is created.
pub const UNIVERSE_COUNT: usize = 2;

/// Why a channel operation was refused.
#[derive(Debug, Clone, Copy, PartialEq, Eq, Structural)]
pub enum DmxError {
    /// The universe or channel index does not name an existing channel.
    OutOfRange,
    /// The transport refused or failed the write of a frame.
    Transport,
}

/// A universe index and a channel index name an existing channel.
pub open spec fn in_range(m: Seq<Seq<u8>>, universe: int, channel: int) -> bool {
    0 <= universe < m.len() && 0 <= channel < m[universe].len()
}

/// What `get` on the channel yields.
pub open spec fn read_channel(m: Seq<Seq<u8>>, universe: int, channel: int) -> Result<u8, DmxError> {
    if in_range(m, universe, channel) {
        Ok(m[universe][channel])
    } else {
        Err(DmxError::OutOfRange)
    }
}

/// The channel state after writing `value`; an invalid pair leaves it as it was.
pub open spec fn write_channel(m: Seq<Seq<u8>>, universe: int, channel: int, value: u8) -> Seq<
    Seq<u8>,
> {
    if in_range(m, universe, channel) {
        m.update(universe, m[universe].update(channel, value))
    } else {
        m
    }
}

/// The bytes that a flush of `universe` hands to the transport.
pub open spec fn frame_of(m: Seq<Seq<u8>>, universe: int) -> Result<Seq<u8>, DmxError> {
    if 0 <= universe < m.len() {
        Ok(m[universe])
    } else {
        Err(DmxError::OutOfRange)
    }
}

/// The outcome of `set` on a channel.
pub open spec fn set_outcome(m: Seq<Seq<u8>>, universe: int, channel: int) -> Result<(), DmxError> {
    if in_range(m, universe, channel) {
        Ok(())
    } else {
        Err(DmxError::OutOfRange)
    }
}

/// Channel buffers for a fixed set of universes, and the name of the serial
/// device that their frames are sent to.
pub struct DMXController {
    universes: Vec<Vec<u8>>,
    port: String,
}

impl View for DMXController {
    type V = Seq<Seq<u8>>;

    closed spec fn view(&self) -> Seq<Seq<u8>> {
        Seq::new(self.universes@.len(), |i: int| self.universes@[i]@)
    }
}

impl DMXController {
    /// Every universe holds exactly `UNIVERSE_SIZE` channels.
    pub closed spec fn wf(&self) -> bool {
        forall|i: int|
            0 <= i < self.universes@.len() ==> #[trigger] self.universes@[i]@.len()
                == UNIVERSE_SIZE
    }

    /// The name of the serial device.
    pub closed spec fn port_name(&self) -> Seq<char> {
        self.port@
    }

    /// A controller with `UNIVERSE_COUNT` universes, every channel at zero.
    pub fn new(port: String) -> (r: DMXController)
        ensures
            r.wf(),
            r@.len() == UNIVERSE_COUNT,
            forall|u: int|
                0 <= u < UNIVERSE_COUNT ==> #[trigger] r@[u] == Seq::new(
                    UNIVERSE_SIZE as nat,
                    |j: int| 0u8,
                ),
            r.port_name() == port@,
    {
        let mut universes: Vec<Vec<u8>> = Vec::new();
        let mut k: usize = 0;
        while k < UNIVERSE_COUNT
            invariant
                k <= UNIVERSE_COUNT,
                universes@.len() == k,
                forall|i: int|
                    0 <= i < k ==> #[trigger] universes@[i]@ == Seq::new(
                        UNIVERSE_SIZE as nat,
                        |j: int| 0u8,
                    ),
            decreases UNIVERSE_COUNT - k,
        {
            let row = zeroed_universe();
            universes.push(row);
            k = k + 1;
        }
        let r = DMXController { universes, port };
        assert forall|u: int| 0 <= u < UNIVERSE_COUNT implies #[trigger] r@[u] == Seq::new(
            UNIVERSE_SIZE as nat,
            |j: int| 0u8,
        ) by {
            assert(r.universes@[u]@ == Seq::new(UNIVERSE_SIZE as nat, |j: int| 0u8));
        }
        r
    }

    /// The name of the serial device that frames are sent to.
    pub fn port(&self) -> (r: &str)
        ensures
            r@ == self.port_name(),
    {
        self.port.as_str()
    }

    /// How many universes the controller holds.
    pub fn universe_count(&self) -> (r: usize)
        ensures
            r == self@.len(),
    {
        self.universes.len()
    }

    /// Writes `value` into one channel. Nothing is sent.
    pub fn set_value(&mut self, universe: usize, channel: usize, value: u8) -> (r: Result<
        (),
        DmxError,
    >)
        requires
            old(self).wf(),
        ensures
            final(self).wf(),
            final(self)@ == write_channel(old(self)@, universe as int, channel as int, value),
            r == set_outcome(old(self)@, universe as int, channel as int),
            final(self).port_name() == old(self).port_name(),
    {
        if universe >= self.universes.len() || channel >= self.universes[universe].len() {
            return Err(DmxError::OutOfRange);
        }
        let ghost before = self@;
        let row = &mut self.universes[universe];
        row.set(channel, value);
        assert(self@ =~= write_channel(before, universe as int, channel as int, value));
        Ok(())
    }

    /// Reads one channel.
    pub fn get_value(&self, universe: usize, channel: usize) -> (r: Result<u8, DmxError>)
        ensures
            r == read_channel(self@, universe as int, channel as int),
    {
        if universe >= self.universes.len() || channel >= self.universes[universe].len() {
            return Err(DmxError::OutOfRange);
        }
        Ok(self.universes[universe][channel])
    }

    /// The bytes that a flush of `universe` writes to the transport: its full
    /// channel sequence, in channel order.
    pub fn frame(&self, universe: usize) -> (r: Result<Vec<u8>, DmxError>)
        ensures
            r matches Ok(b) ==> frame_of(self@, universe as int) == Ok::<Seq<u8>, DmxError>(b@),
            r matches Err(e) ==> frame_of(self@, universe as int) == Err::<Seq<u8>, DmxError>(e),
    {
        if universe >= self.universes.len() {
            return Err(DmxError::OutOfRange);
        }
        let row = &self.universes[universe];
        let mut out: Vec<u8> = Vec::new();
        let mut i: usize = 0;
        while i < row.len()
            invariant
                i <= row@.len(),
                out@ == row@.subrange(0, i as int),
            decreases row@.len() - i,
        {
            out.push(row[i]);
            i = i + 1;
            assert(out@ =~= row@.subrange(0, i as int));
        }
        assert(out@ =~= row@);
        Ok(out)
    }
}

/// A universe of `UNIVERSE_SIZE` channels at zero.
pub fn zeroed_universe() -> (r: Vec<u8>)
    ensures
        r@ == Seq::new(UNIVERSE_SIZE as nat, |j: int| 0u8),
{
    let mut row: Vec<u8> = Vec::new();
    let mut i: usize = 0;
    while i < UNIVERSE_SIZE
        invariant
            i <= UNIVERSE_SIZE,
            row@ == Seq::new(i as nat, |j: int| 0u8),
        decreases UNIVERSE_SIZE - i,
    {
        row.push(0);
        i = i + 1;
        assert(row@ =~= Seq::new(i as nat, |j: int| 0u8));
    }
    row
}

} // verus!
