//! What holds of every frame plan.

use vstd::prelude::*;
use crate::bake_laws::lemma_ranges_within;
use crate::buffers::{entry_of, lemma_position, position, AttachmentMetadata, BakedBuffers};
use crate::dispatch::{draw_of, draws, shown, spares_what_is_bound};
use crate::pose::Skeleton;
use crate::texture::{held_once, is_loaded, TextureState};

verus! {

/// The draw calls follow the draw order: each is the call of the slot at
/// its place, and a call that comes later is of a slot that is drawn later.
pub proof fn lemma_draws_in_draw_order(
    skeleton: Skeleton,
    entries: Seq<AttachmentMetadata>,
    states: Map<u64, TextureState>,
    n: int,
)
    requires
        0 <= n <= skeleton.draw_order@.len(),
    ensures
        forall|i: int|
            0 <= i < draws(skeleton, entries, states, n).len() ==> {
                let call = #[trigger] draws(skeleton, entries, states, n)[i];
                &&& call.position < n
                &&& draw_of(skeleton, entries, states, call.position as int) == Some(call)
            },
        forall|i: int, j: int|
            0 <= i < j < draws(skeleton, entries, states, n).len() ==> (#[trigger] draws(
                skeleton,
                entries,
                states,
                n,
            )[i]).position < (#[trigger] draws(skeleton, entries, states, n)[j]).position,
    decreases n,
{
    if n > 0 {
        lemma_draws_in_draw_order(skeleton, entries, states, n - 1);
        let before = draws(skeleton, entries, states, n - 1);
        let after = draws(skeleton, entries, states, n);
        assert(n <= skeleton.draw_order.len() <= usize::MAX);
        assert forall|i: int| 0 <= i < after.len() implies ({
            let call = #[trigger] after[i];
            &&& call.position < n
            &&& draw_of(skeleton, entries, states, call.position as int) == Some(call)
        }) by {
            if i < before.len() {
                assert(after[i] == before[i]);
            }
        }
        assert forall|i: int, j: int| 0 <= i < j < after.len() implies (#[trigger] after[i]).position
            < (#[trigger] after[j]).position by {
            assert(after[i] == before[i]);
            if j < before.len() {
                assert(after[j] == before[j]);
            }
        }
    }
}

/// No slot that can be drawn is left out: if the slot at the place `p` of
/// the draw order has a draw call, the call is among the draw calls.
pub proof fn lemma_draws_complete(
    skeleton: Skeleton,
    entries: Seq<AttachmentMetadata>,
    states: Map<u64, TextureState>,
    n: int,
    p: int,
)
    requires
        0 <= p < n,
        draw_of(skeleton, entries, states, p) is Some,
    ensures
        draws(skeleton, entries, states, n).contains(draw_of(skeleton, entries, states, p)->0),
    decreases n,
{
    let after = draws(skeleton, entries, states, n);
    let before = draws(skeleton, entries, states, n - 1);
    let call = draw_of(skeleton, entries, states, p)->0;
    if p == n - 1 {
        assert(after[after.len() - 1] == call);
    } else {
        lemma_draws_complete(skeleton, entries, states, n - 1, p);
        let i = choose|i: int| 0 <= i < before.len() && before[i] == call;
        assert(after[i] == call);
    }
}

/// A slot whose bone is not active is not drawn, nor one that shows
/// nothing, nor one whose attachment was not baked, nor one whose texture
/// is not loaded.
pub proof fn lemma_passed_over(
    skeleton: Skeleton,
    entries: Seq<AttachmentMetadata>,
    states: Map<u64, TextureState>,
    n: int,
    p: int,
)
    requires
        0 <= p < n <= skeleton.draw_order@.len(),
        ({
            let slot = skeleton.draw_order@[p];
            ||| slot.bone >= skeleton.bones@.len()
            ||| !skeleton.bones@[slot.bone as int].active
            ||| slot.attachment is None
            ||| entry_of(entries, slot.attachment->0) is None
            ||| !is_loaded(states, entry_of(entries, slot.attachment->0)->0.texture)
        }),
    ensures
        forall|i: int|
            0 <= i < draws(skeleton, entries, states, n).len() ==> (#[trigger] draws(
                skeleton,
                entries,
                states,
                n,
            )[i]).position != p,
{
    lemma_draws_in_draw_order(skeleton, entries, states, n);
}

/// Whether a slot is drawn depends on no texture but its own: where two
/// stores agree on the page of what the slot shows, the slot has the same
/// draw call with both. A texture that failed to load costs the slots that
/// show it their draw calls, and no other slot anything.
pub proof fn lemma_texture_isolation(
    skeleton: Skeleton,
    entries: Seq<AttachmentMetadata>,
    states: Map<u64, TextureState>,
    others: Map<u64, TextureState>,
    p: int,
)
    requires
        shown(skeleton, entries, p) matches Some(entry) ==> {
            &&& states.contains_key(entry.texture) == others.contains_key(entry.texture)
            &&& states.contains_key(entry.texture) ==> states[entry.texture]
                == others[entry.texture]
        },
    ensures
        draw_of(skeleton, entries, states, p) == draw_of(skeleton, entries, others, p),
{
}

/// A texture that waits to be deleted is bound by no draw call, where the
/// store holds every texture once: what is deleted at the start of a frame
/// is not drawn with in that frame.
pub proof fn lemma_deletions_spare_draws(
    skeleton: Skeleton,
    entries: Seq<AttachmentMetadata>,
    states: Map<u64, TextureState>,
    queue: Seq<u64>,
    n: int,
)
    requires
        held_once(states, queue),
        0 <= n <= skeleton.draw_order@.len(),
    ensures
        spares_what_is_bound(queue, draws(skeleton, entries, states, n)),
{
    lemma_draws_in_draw_order(skeleton, entries, states, n);
    let calls = draws(skeleton, entries, states, n);
    assert forall|i: int, j: int| 0 <= i < calls.len() && 0 <= j < queue.len() implies (
    #[trigger] calls[i]).texture != #[trigger] queue[j] by {
        let entry = shown(skeleton, entries, calls[i].position as int)->0;
        assert(is_loaded(states, entry.texture));
    }
}

/// Every draw call draws the range of one baked attachment, and where the
/// ranges of the attachments divide the index buffer that range lies
/// within it.
pub proof fn lemma_draws_within_buffer(
    skeleton: Skeleton,
    baked: BakedBuffers,
    states: Map<u64, TextureState>,
    n: int,
    i: int,
)
    requires
        baked.wf(),
        0 <= n <= skeleton.draw_order@.len(),
        0 <= i < draws(skeleton, baked.attachments@, states, n).len(),
    ensures
        ({
            let call = draws(skeleton, baked.attachments@, states, n)[i];
            &&& entry_of(baked.attachments@, call.attachment) matches Some(entry)
            &&& entry.index_start == call.index_start
            &&& entry.index_count == call.index_count
            &&& call.index_start + call.index_count <= baked.indices@.len()
        }),
{
    let entries = baked.attachments@;
    lemma_draws_in_draw_order(skeleton, entries, states, n);
    let call = draws(skeleton, entries, states, n)[i];
    let slot = skeleton.draw_order@[call.position as int];
    lemma_position(entries, slot.attachment->0, entries.len() as int);
    let k = position(entries, slot.attachment->0, entries.len() as int)->0;
    lemma_ranges_within(entries, baked.vertices@.len() as int, baked.indices@.len() as int, k);
}

} // verus!
