use vstd::prelude::*;

verus! {

/// A gain of 1.0, in thousandths. Master and cue volumes are written in
/// thousandths; the gain a cue applies is their product, in millionths.
pub const UNIT_GAIN: u32 = 1000;

/// One registered cue, as the contracts see it.
pub struct CueState {
    pub id: u64,
    pub name: Seq<char>,
    pub volume: u32,
    pub cancelled: bool,
}

/// The whole playback controller, as the contracts see it.
pub struct AudioState {
    pub master: u32,
    pub cues: Seq<CueState>,
    pub next_id: u64,
}

/// What a running cue does on its next poll.
#[derive(Debug, Clone, Copy, PartialEq, Eq, Structural)]
pub enum CueAction {
    /// Stop output and exit.
    Stop,
    /// Keep playing at this gain, in millionths.
    SetVolume(u64),
}

/// Position of the entry registered under `id` (the last one, should there be
/// several), or -1.
pub open spec fn index_of(cues: Seq<CueState>, id: u64) -> int
    decreases cues.len(),
{
    if cues.len() == 0 {
        -1
    } else if cues.last().id == id {
        cues.len() - 1
    } else {
        index_of(cues.drop_last(), id)
    }
}

/// The gain, in millionths, of a cue with volume `volume` under master `master`.
pub open spec fn effective_gain(master: u32, volume: u32) -> int {
    master as int * volume as int
}

/// What the cue registered under `id` does on its next poll. A handle that is
/// not registered stops.
pub open spec fn poll_action(s: AudioState, id: u64) -> CueAction {
    let k = index_of(s.cues, id);
    if k < 0 || s.cues[k].cancelled {
        CueAction::Stop
    } else {
        CueAction::SetVolume(effective_gain(s.master, s.cues[k].volume) as u64)
    }
}

/// The state after a cue named `name` with volume `volume` is started.
pub open spec fn register(s: AudioState, name: Seq<char>, volume: u32) -> AudioState {
    AudioState {
        master: s.master,
        cues: s.cues.push(CueState { id: s.next_id, name, volume, cancelled: false }),
        next_id: (s.next_id + 1) as u64,
    }
}

/// A cue with its cancellation flag set.
pub open spec fn cancelled(c: CueState) -> CueState {
    CueState { cancelled: true, ..c }
}

/// The state after `stop` on `name`: every entry under that name is cancelled.
pub open spec fn stop_named(s: AudioState, name: Seq<char>) -> AudioState {
    AudioState {
        cues: Seq::new(
            s.cues.len(),
            |i: int|
                if s.cues[i].name == name {
                    cancelled(s.cues[i])
                } else {
                    s.cues[i]
                },
        ),
        ..s
    }
}

/// The state after `stop_all`: every entry is cancelled.
pub open spec fn stop_every(s: AudioState) -> AudioState {
    AudioState { cues: Seq::new(s.cues.len(), |i: int| cancelled(s.cues[i])), ..s }
}

/// The state after the master volume is set to `level`.
pub open spec fn with_master(s: AudioState, level: u32) -> AudioState {
    AudioState { master: level, ..s }
}

/// The state after the cue under `id` has exited and left the registry.
pub open spec fn retire(s: AudioState, id: u64) -> AudioState {
    let k = index_of(s.cues, id);
    if k < 0 {
        s
    } else {
        AudioState { cues: s.cues.remove(k), ..s }
    }
}

/// `index_of` is -1 or the position of an entry with that id.
pub proof fn lemma_index_of_bounds(cues: Seq<CueState>, id: u64)
    ensures
        -1 <= index_of(cues, id) < cues.len(),
        index_of(cues, id) >= 0 ==> cues[index_of(cues, id)].id == id,
    decreases cues.len(),
{
    if cues.len() > 0 && cues.last().id != id {
        lemma_index_of_bounds(cues.drop_last(), id);
    }
}

/// `index_of` reads the ids alone.
pub proof fn lemma_index_of_ids(a: Seq<CueState>, b: Seq<CueState>, id: u64)
    requires
        a.len() == b.len(),
        forall|i: int| 0 <= i < a.len() ==> #[trigger] a[i].id == b[i].id,
    ensures
        index_of(a, id) == index_of(b, id),
    decreases a.len(),
{
    if a.len() > 0 {
        assert(a.last().id == b.last().id);
        lemma_index_of_ids(a.drop_last(), b.drop_last(), id);
    }
}

/// One registered cue: its handle, its identifier, its own volume and its
/// cancellation flag.
pub struct Cue {
    id: u64,
    name: String,
    volume: u32,
    cancelled: bool,
}

impl View for Cue {
    type V = CueState;

    closed spec fn view(&self) -> CueState {
        CueState { id: self.id, name: self.name@, volume: self.volume, cancelled: self.cancelled }
    }
}

/// The registry of started cues and the master volume that they all share.
pub struct AudioController {
    volume: u32,
    player_threads: Vec<Cue>,
    next_id: u64,
}

impl View for AudioController {
    type V = AudioState;

    closed spec fn view(&self) -> AudioState {
        AudioState {
            master: self.volume,
            cues: Seq::new(self.player_threads@.len(), |i: int| self.player_threads@[i]@),
            next_id: self.next_id,
        }
    }
}

impl AudioController {
    /// Every registered handle was given out before `next_id`.
    pub open spec fn wf(&self) -> bool {
        forall|i: int| 0 <= i < self@.cues.len() ==> #[trigger] self@.cues[i].id < self@.next_id
    }

    /// No cue registered, master volume at unit gain.
    pub fn new() -> (r: AudioController)
        ensures
            r.wf(),
            r@.master == UNIT_GAIN,
            r@.cues.len() == 0,
            r@.next_id == 0,
    {
        let r = AudioController { volume: UNIT_GAIN, player_threads: Vec::new(), next_id: 0 };
        assert(r@.cues =~= Seq::<CueState>::empty());
        r
    }

    /// Registers a cue named `file_name` with its own volume, its flag cleared,
    /// and returns its handle; `None` once every handle has been given out.
    pub fn play_sound(&mut self, file_name: &str, volume: u32) -> (r: Option<u64>)
        requires
            old(self).wf(),
        ensures
            final(self).wf(),
            old(self)@.next_id == u64::MAX ==> r is None && final(self)@ == old(self)@,
            old(self)@.next_id < u64::MAX ==> r == Some(old(self)@.next_id) && final(self)@
                == register(old(self)@, file_name@, volume),
    {
        if self.next_id == u64::MAX {
            return None;
        }
        let id = self.next_id;
        let ghost before = self@;
        self.player_threads.push(Cue { id, name: file_name.to_owned(), volume, cancelled: false });
        self.next_id = id + 1;
        assert(self@.cues =~= register(before, file_name@, volume).cues);
        Some(id)
    }

    /// Sets the cancellation flag of every cue registered under `file_name`.
    /// Does not wait for the cues to exit; a name with no cue changes nothing.
    pub fn stop_sound(&mut self, file_name: &str)
        requires
            old(self).wf(),
        ensures
            final(self).wf(),
            final(self)@ == stop_named(old(self)@, file_name@),
    {
        let target = file_name.to_owned();
        let ghost before = self@;
        let n = self.player_threads.len();
        let mut i: usize = 0;
        while i < n
            invariant
                n == self.player_threads@.len(),
                n == before.cues.len(),
                i <= n,
                target@ == file_name@,
                self.volume == before.master,
                self.next_id == before.next_id,
                forall|j: int|
                    0 <= j < i ==> #[trigger] self.player_threads@[j]@ == stop_named(
                        before,
                        file_name@,
                    ).cues[j],
                forall|j: int| i <= j < n ==> #[trigger] self.player_threads@[j]@ == before.cues[j],
            decreases n - i,
        {
            assert(self.player_threads@[i as int]@ == before.cues[i as int]);
            if self.player_threads[i].name == target {
                let c = &mut self.player_threads[i];
                c.cancelled = true;
            }
            assert(self.player_threads@[i as int]@ == stop_named(before, file_name@).cues[i as int]);
            i = i + 1;
        }
        assert(self@.cues =~= stop_named(before, file_name@).cues);
    }

    /// Sets the cancellation flag of every registered cue.
    pub fn stop_all_sounds(&mut self)
        requires
            old(self).wf(),
        ensures
            final(self).wf(),
            final(self)@ == stop_every(old(self)@),
    {
        let ghost before = self@;
        let n = self.player_threads.len();
        let mut i: usize = 0;
        while i < n
            invariant
                n == self.player_threads@.len(),
                n == before.cues.len(),
                i <= n,
                self.volume == before.master,
                self.next_id == before.next_id,
                forall|j: int|
                    0 <= j < i ==> #[trigger] self.player_threads@[j]@ == stop_every(before).cues[j],
                forall|j: int| i <= j < n ==> #[trigger] self.player_threads@[j]@ == before.cues[j],
            decreases n - i,
        {
            assert(self.player_threads@[i as int]@ == before.cues[i as int]);
            let c = &mut self.player_threads[i];
            c.cancelled = true;
            assert(self.player_threads@[i as int]@ == stop_every(before).cues[i as int]);
            i = i + 1;
        }
        assert(self@.cues =~= stop_every(before).cues);
    }

    /// Overwrites the master volume, in thousandths.
    pub fn set_volume(&mut self, volume: u32)
        requires
            old(self).wf(),
        ensures
            final(self).wf(),
            final(self)@ == with_master(old(self)@, volume),
    {
        self.volume = volume;
    }

    /// The current master volume, in thousandths.
    pub fn volume(&self) -> (r: u32)
        ensures
            r == self@.master,
    {
        self.volume
    }

    /// How many cues the registry holds, cancelled ones included.
    pub fn cue_count(&self) -> (r: usize)
        ensures
            r == self@.cues.len(),
    {
        self.player_threads.len()
    }

    /// Position of the entry under `id`, as `index_of` gives it.
    fn find(&self, id: u64) -> (r: Option<usize>)
        ensures
            r is None <==> index_of(self@.cues, id) < 0,
            r matches Some(k) ==> k == index_of(self@.cues, id),
    {
        let ghost cues = self@.cues;
        let mut i: usize = self.player_threads.len();
        assert(cues.subrange(0, i as int) =~= cues);
        while i > 0
            invariant
                i <= cues.len(),
                cues == self@.cues,
                index_of(cues, id) == index_of(cues.subrange(0, i as int), id),
            decreases i,
        {
            assert(cues.subrange(0, i as int).drop_last() =~= cues.subrange(0, i - 1));
            if self.player_threads[i - 1].id == id {
                return Some(i - 1);
            }
            i = i - 1;
        }
        None
    }

    /// What the cue under `id` does on its next poll: stop once its flag is
    /// set or it is no longer registered, else apply the master volume times
    /// its own.
    pub fn poll(&self, id: u64) -> (r: CueAction)
        ensures
            r == poll_action(self@, id),
    {
        proof {
            lemma_index_of_bounds(self@.cues, id);
        }
        match self.find(id) {
            None => CueAction::Stop,
            Some(k) => {
                let c = &self.player_threads[k];
                if c.cancelled {
                    CueAction::Stop
                } else {
                    let (m, v) = (self.volume as u64, c.volume as u64);
                    assert(m * v <= u32::MAX * u32::MAX) by (nonlinear_arith)
                        requires
                            m <= u32::MAX,
                            v <= u32::MAX,
                    ;
                    CueAction::SetVolume(m * v)
                }
            },
        }
    }

    /// Removes the entry of a cue whose task has exited. An unknown handle
    /// changes nothing.
    pub fn retire(&mut self, id: u64)
        requires
            old(self).wf(),
        ensures
            final(self).wf(),
            final(self)@ == retire(old(self)@, id),
    {
        proof {
            lemma_index_of_bounds(self@.cues, id);
        }
        let ghost before = self@;
        match self.find(id) {
            None => {},
            Some(k) => {
                self.player_threads.remove(k);
                assert(self@.cues =~= before.cues.remove(k as int));
            },
        }
    }
}

} // verus!
