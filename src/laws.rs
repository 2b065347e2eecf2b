use vstd::prelude::*;
use crate::audio::{
    AudioState, CueAction, effective_gain, index_of, lemma_index_of_bounds, lemma_index_of_ids,
    poll_action, register, stop_every, stop_named, with_master,
};
use crate::dmx::{DmxError, frame_of, in_range, read_channel, set_outcome, write_channel};

verus! {

/// A write to a valid channel is read back; every other channel keeps its
/// value. On an invalid pair both `set` and `get` fail with `OutOfRange`, and
/// the buffers are left as they were.
pub proof fn set_then_get(m: Seq<Seq<u8>>, universe: int, channel: int, value: u8, u2: int, c2: int)
    ensures
        in_range(m, universe, channel) ==> read_channel(
            write_channel(m, universe, channel, value),
            universe,
            channel,
        ) == Ok::<u8, DmxError>(value),
        (u2 != universe || c2 != channel) ==> read_channel(
            write_channel(m, universe, channel, value),
            u2,
            c2,
        ) == read_channel(m, u2, c2),
        !in_range(m, universe, channel) ==> set_outcome(m, universe, channel) == Err::<
            (),
            DmxError,
        >(DmxError::OutOfRange) && read_channel(m, universe, channel) == Err::<u8, DmxError>(
            DmxError::OutOfRange,
        ) && write_channel(m, universe, channel, value) == m,
{
}

/// A flush sends the current channel sequence of its universe, whatever was
/// written to other universes.
pub proof fn frame_ignores_other_universes(
    m: Seq<Seq<u8>>,
    universe: int,
    channel: int,
    value: u8,
    other: int,
)
    requires
        other != universe,
    ensures
        frame_of(write_channel(m, universe, channel, value), other) == frame_of(m, other),
        0 <= other < m.len() ==> frame_of(m, other) == Ok::<Seq<u8>, DmxError>(m[other]),
{
}

/// A cue started and then stopped under the same identifier stops on its
/// next poll.
pub proof fn start_then_stop(s: AudioState, name: Seq<char>, volume: u32)
    requires
        s.next_id < u64::MAX,
    ensures
        poll_action(stop_named(register(s, name, volume), name), s.next_id) == CueAction::Stop,
{
    let s1 = register(s, name, volume);
    let s2 = stop_named(s1, name);
    assert(index_of(s1.cues, s.next_id) == s1.cues.len() - 1);
    lemma_index_of_ids(s1.cues, s2.cues, s.next_id);
}

/// After `stop` on a name, every cue under that name stops on its next poll.
pub proof fn stop_halts_named(s: AudioState, name: Seq<char>, id: u64)
    requires
        0 <= index_of(s.cues, id) < s.cues.len(),
        s.cues[index_of(s.cues, id)].name == name,
    ensures
        poll_action(stop_named(s, name), id) == CueAction::Stop,
{
    lemma_index_of_bounds(s.cues, id);
    lemma_index_of_ids(s.cues, stop_named(s, name).cues, id);
}

/// After `stop_all`, every cue stops on its next poll, however many run.
pub proof fn stop_all_halts_every(s: AudioState, id: u64)
    ensures
        poll_action(stop_every(s), id) == CueAction::Stop,
{
    lemma_index_of_ids(s.cues, stop_every(s).cues, id);
    lemma_index_of_bounds(s.cues, id);
}

/// `stop` twice on one name is `stop` once; `stop_all` twice is `stop_all`
/// once; `stop_all` with no cue, or `stop` on a name no cue has, changes
/// nothing.
pub proof fn stop_idempotent(s: AudioState, name: Seq<char>)
    ensures
        stop_named(stop_named(s, name), name) == stop_named(s, name),
        stop_every(stop_every(s)) == stop_every(s),
        s.cues.len() == 0 ==> stop_every(s) == s,
        (forall|i: int| 0 <= i < s.cues.len() ==> #[trigger] s.cues[i].name != name)
            ==> stop_named(s, name) == s,
{
    assert(stop_named(stop_named(s, name), name).cues =~= stop_named(s, name).cues);
    assert(stop_every(stop_every(s)).cues =~= stop_every(s).cues);
    if s.cues.len() == 0 {
        assert(stop_every(s).cues =~= s.cues);
    }
    if forall|i: int| 0 <= i < s.cues.len() ==> #[trigger] s.cues[i].name != name {
        assert(stop_named(s, name).cues =~= s.cues);
    }
}

/// A cue that has not been stopped applies, on its next poll, the master
/// volume last set times its own volume.
pub proof fn poll_follows_master(s: AudioState, level: u32, id: u64)
    requires
        0 <= index_of(s.cues, id) < s.cues.len(),
        !s.cues[index_of(s.cues, id)].cancelled,
    ensures
        poll_action(with_master(s, level), id) == CueAction::SetVolume(
            effective_gain(level, s.cues[index_of(s.cues, id)].volume) as u64,
        ),
{
}

/// Of two master-volume writes, the last one stands.
pub proof fn last_volume_wins(s: AudioState, first: u32, second: u32)
    ensures
        with_master(with_master(s, first), second) == with_master(s, second),
        with_master(with_master(s, first), second).master == second,
{
}

} // verus!
