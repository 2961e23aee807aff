//! Cross-cutting properties of the acquisition core, stated and proved over
//! the same spec functions the executable contracts use.

use vstd::prelude::*;
use crate::buffer::DecodedSample;
use crate::buffer::spec_cap_seq;
use crate::buffer::spec_push_capped;
use crate::simulator::lemma_sim_sample_nonempty;
use crate::simulator::spec_sim_sample_values;
use crate::value::PhysValue;

verus! {

/// For any simulator run — any requested keys, any tick indices, and clock
/// readings taken in order — the decoded samples' timestamps are
/// non-decreasing and every sample's value map holds at least one entry.
pub proof fn lemma_simulator_run(
    keys: Seq<Seq<char>>,
    indices: Seq<u64>,
    stamps: Seq<u128>,
    samples: Seq<DecodedSample>,
)
    requires
        samples.len() == stamps.len(),
        indices.len() == stamps.len(),
        forall|a: int, b: int| 0 <= a <= b < stamps.len() ==> stamps[a] <= stamps[b],
        forall|j: int| 0 <= j < samples.len() ==> samples[j].timestamp_ms == stamps[j],
        forall|j: int|
            0 <= j < samples.len() ==> samples[j].values@.map_values(
                |p: (String, PhysValue)| (p.0@, p.1),
            ) == spec_sim_sample_values(keys, indices[j]),
    ensures
        forall|a: int, b: int|
            0 <= a <= b < samples.len() ==> samples[a].timestamp_ms <= samples[b].timestamp_ms,
        forall|j: int| 0 <= j < samples.len() ==> samples[j].values@.len() >= 1,
{
    assert forall|a: int, b: int| 0 <= a <= b < samples.len() implies samples[a].timestamp_ms
        <= samples[b].timestamp_ms by {
        assert(samples[a].timestamp_ms == stamps[a]);
        assert(samples[b].timestamp_ms == stamps[b]);
    }
    assert forall|j: int| 0 <= j < samples.len() implies samples[j].values@.len() >= 1 by {
        lemma_sim_sample_nonempty(keys, indices[j]);
        assert(samples[j].values@.map_values(|p: (String, PhysValue)| (p.0@, p.1)).len()
            == samples[j].values@.len());
    }
}

/// However fast the worker appends and however slowly the poller drains,
/// the pending buffers never exceed their caps, so a drain never returns
/// more than `MAX_PENDING_LINES` lines or `MAX_PENDING_SAMPLES` samples:
/// any interleaving of capped appends starting within the caps stays within
/// them, and capping to the poll budget only shrinks a sequence further.
pub proof fn lemma_buffers_stay_bounded<T>(s: Seq<T>, x: T, cap: int, budget: int)
    requires
        cap >= 1,
        budget >= 1,
        s.len() <= cap,
    ensures
        spec_push_capped(s, x, cap).len() <= cap,
        spec_cap_seq(s, budget).len() <= s.len(),
{
}

} // verus!
