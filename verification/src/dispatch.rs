//! Dispatch: what to draw at one frame, and in which order.
//!
//! The dispatcher issues no command itself. It goes through the slots in
//! draw order and lists the draw calls of the frame, each with its blend
//! states, its texture and its range of the index buffer. Whoever owns the
//! graphics context carries the list out in the order given.

use vstd::prelude::*;
use crate::buffers::{entry_of, AttachmentMetadata, BakedBuffers};
use crate::blend::{resolve, BlendStates};
use crate::pose::Skeleton;
use crate::texture::{is_loaded, is_unrequested, with_request, TextureState, TextureStore};

verus! {

/// One indexed draw.
#[derive(Clone, Copy, Debug, PartialEq, Eq, Structural)]
pub struct DrawCall {
    /// The place of the slot in the draw order.
    pub position: usize,
    /// The index of the slot.
    pub slot: usize,
    /// The attachment, by its place among all attachments of the skeleton.
    pub attachment: u32,
    /// The blend states to set before the draw.
    pub blend: BlendStates,
    /// The texture to bind.
    pub texture: u64,
    /// The range of the index buffer to draw.
    pub index_start: u32,
    pub index_count: u32,
}

/// What is to be done at one frame, in this order: delete the textures
/// that were queued, start loading the pages that are asked for for the
/// first time, and issue the draw calls.
#[derive(Debug, PartialEq, Eq)]
pub struct FramePlan {
    pub deletions: Vec<u64>,
    pub loads: Vec<u64>,
    pub draws: Vec<DrawCall>,
}

/// Whether none of the textures to delete is bound by any of the draw
/// calls.
pub open spec fn spares_what_is_bound(deletions: Seq<u64>, calls: Seq<DrawCall>) -> bool {
    forall|i: int, j: int|
        0 <= i < calls.len() && 0 <= j < deletions.len() ==> (#[trigger] calls[i]).texture
            != #[trigger] deletions[j]
}

/// Whether every draw call draws within an index buffer of `indices`
/// indices.
pub open spec fn within_buffer(calls: Seq<DrawCall>, indices: int) -> bool {
    forall|i: int|
        0 <= i < calls.len() ==> (#[trigger] calls[i]).index_start + calls[i].index_count <= indices
}

/// The entry of the attachment that the slot at the place `p` of the draw
/// order shows. There is none if the bone of the slot is not active, if
/// the slot shows nothing, or if what it shows was not baked, as a
/// clipping attachment is not.
pub open spec fn shown(skeleton: Skeleton, entries: Seq<AttachmentMetadata>, p: int) -> Option<
    AttachmentMetadata,
> {
    let slot = skeleton.draw_order@[p];
    if slot.bone < skeleton.bones@.len() && skeleton.bones@[slot.bone as int].active
        && slot.attachment is Some {
        entry_of(entries, slot.attachment->0)
    } else {
        None
    }
}

/// The draw call of the slot at the place `p` of the draw order. There is
/// none if the slot shows nothing that was baked, or if the texture of
/// what it shows is not loaded.
pub open spec fn draw_of(
    skeleton: Skeleton,
    entries: Seq<AttachmentMetadata>,
    states: Map<u64, TextureState>,
    p: int,
) -> Option<DrawCall> {
    match shown(skeleton, entries, p) {
        Some(entry) => if is_loaded(states, entry.texture) {
            Some(
                DrawCall {
                    position: p as usize,
                    slot: skeleton.draw_order@[p].index,
                    attachment: entry.attachment,
                    blend: resolve(skeleton.draw_order@[p].blend_mode, skeleton.premultiplied_alpha),
                    texture: states[entry.texture]->handle,
                    index_start: entry.index_start,
                    index_count: entry.index_count,
                },
            )
        } else {
            None
        },
        None => None,
    }
}

/// The draw calls of the first `n` slots in draw order.
pub open spec fn draws(
    skeleton: Skeleton,
    entries: Seq<AttachmentMetadata>,
    states: Map<u64, TextureState>,
    n: int,
) -> Seq<DrawCall>
    decreases n,
{
    if n <= 0 {
        Seq::empty()
    } else {
        match draw_of(skeleton, entries, states, n - 1) {
            Some(call) => draws(skeleton, entries, states, n - 1).push(call),
            None => draws(skeleton, entries, states, n - 1),
        }
    }
}

/// The states of the textures once the first `n` slots in draw order have
/// asked for the textures of what they show.
pub open spec fn asked(
    skeleton: Skeleton,
    entries: Seq<AttachmentMetadata>,
    states: Map<u64, TextureState>,
    n: int,
) -> Map<u64, TextureState>
    decreases n,
{
    if n <= 0 {
        states
    } else {
        match shown(skeleton, entries, n - 1) {
            Some(entry) => with_request(asked(skeleton, entries, states, n - 1), entry.texture),
            None => asked(skeleton, entries, states, n - 1),
        }
    }
}

/// The pages whose textures have to be loaded because one of the first `n`
/// slots in draw order asks for them and nobody has before.
pub open spec fn loads(
    skeleton: Skeleton,
    entries: Seq<AttachmentMetadata>,
    states: Map<u64, TextureState>,
    n: int,
) -> Seq<u64>
    decreases n,
{
    if n <= 0 {
        Seq::empty()
    } else {
        match shown(skeleton, entries, n - 1) {
            Some(entry) => if is_unrequested(asked(skeleton, entries, states, n - 1), entry.texture) {
                loads(skeleton, entries, states, n - 1).push(entry.texture)
            } else {
                loads(skeleton, entries, states, n - 1)
            },
            None => loads(skeleton, entries, states, n - 1),
        }
    }
}

/// Asking for textures loads none and unloads none.
pub proof fn lemma_asked_keeps_loaded(
    skeleton: Skeleton,
    entries: Seq<AttachmentMetadata>,
    states: Map<u64, TextureState>,
    n: int,
    page: u64,
)
    ensures
        is_loaded(asked(skeleton, entries, states, n), page) == is_loaded(states, page),
        is_loaded(states, page) ==> asked(skeleton, entries, states, n)[page] == states[page],
    decreases n,
{
    if n > 0 {
        lemma_asked_keeps_loaded(skeleton, entries, states, n - 1, page);
    }
}

/// The draw calls are the same before and after textures are asked for.
pub proof fn lemma_draws_after_asking(
    skeleton: Skeleton,
    entries: Seq<AttachmentMetadata>,
    states: Map<u64, TextureState>,
    m: int,
    n: int,
)
    ensures
        draws(skeleton, entries, asked(skeleton, entries, states, m), n) == draws(
            skeleton,
            entries,
            states,
            n,
        ),
    decreases n,
{
    if n > 0 {
        lemma_draws_after_asking(skeleton, entries, states, m, n - 1);
        match shown(skeleton, entries, n - 1) {
            Some(entry) => {
                lemma_asked_keeps_loaded(skeleton, entries, states, m, entry.texture);
            },
            None => {},
        }
    }
}

/// Finds what the slot at the place `p` of the draw order shows.
fn find_shown(skeleton: &Skeleton, baked: &BakedBuffers, p: usize) -> (found: Option<
    AttachmentMetadata,
>)
    requires
        p < skeleton.draw_order@.len(),
    ensures
        found == shown(*skeleton, baked.attachments@, p as int),
{
    let slot = &skeleton.draw_order[p];
    if slot.bone >= skeleton.bones.len() || !skeleton.bones[slot.bone].active {
        return None;
    }
    match slot.attachment {
        None => None,
        Some(attachment) => match baked.find(attachment) {
            None => None,
            Some(k) => Some(baked.attachments[k]),
        },
    }
}

/// Asks for the textures of what the slots show, slot after slot in draw
/// order, and lists the pages to load.
pub fn request_textures(skeleton: &Skeleton, baked: &BakedBuffers, textures: &mut TextureStore) -> (pages:
    Vec<u64>)
    ensures
        pages@ == loads(
            *skeleton,
            baked.attachments@,
            old(textures).states@,
            skeleton.draw_order@.len() as int,
        ),
        final(textures).states@ == asked(
            *skeleton,
            baked.attachments@,
            old(textures).states@,
            skeleton.draw_order@.len() as int,
        ),
        final(textures).delete_queue@ == old(textures).delete_queue@,
        old(textures).wf() ==> final(textures).wf(),
{
    let mut pages: Vec<u64> = Vec::new();
    let mut p: usize = 0;
    while p < skeleton.draw_order.len()
        invariant
            p <= skeleton.draw_order.len(),
            pages@ == loads(*skeleton, baked.attachments@, old(textures).states@, p as int),
            textures.states@ == asked(*skeleton, baked.attachments@, old(textures).states@, p as int),
            textures.delete_queue@ == old(textures).delete_queue@,
            old(textures).wf() ==> textures.wf(),
        decreases skeleton.draw_order.len() - p,
    {
        match find_shown(skeleton, baked, p) {
            Some(entry) => {
                if textures.request(entry.texture) {
                    pages.push(entry.texture);
                }
            },
            None => {},
        }
        p = p + 1;
    }
    pages
}

/// Lists the draw calls of a frame, slot after slot in draw order.
pub fn plan_draws(skeleton: &Skeleton, baked: &BakedBuffers, textures: &TextureStore) -> (calls: Vec<
    DrawCall,
>)
    ensures
        calls@ == draws(
            *skeleton,
            baked.attachments@,
            textures.states@,
            skeleton.draw_order@.len() as int,
        ),
{
    let mut calls: Vec<DrawCall> = Vec::new();
    let mut p: usize = 0;
    while p < skeleton.draw_order.len()
        invariant
            p <= skeleton.draw_order.len(),
            calls@ == draws(*skeleton, baked.attachments@, textures.states@, p as int),
        decreases skeleton.draw_order.len() - p,
    {
        match find_shown(skeleton, baked, p) {
            Some(entry) => {
                match textures.binding(entry.texture) {
                    Some(texture) => {
                        let slot = &skeleton.draw_order[p];
                        calls.push(
                            DrawCall {
                                position: p,
                                slot: slot.index,
                                attachment: entry.attachment,
                                blend: resolve(slot.blend_mode, skeleton.premultiplied_alpha),
                                texture,
                                index_start: entry.index_start,
                                index_count: entry.index_count,
                            },
                        );
                    },
                    None => {},
                }
            },
            None => {},
        }
        p = p + 1;
    }
    calls
}

/// Plans one frame.
///
/// The textures that were queued for deletion come first and leave the
/// queue. Then each slot, in draw order, asks for the texture of what it
/// shows; a page that was not asked for before is listed to be loaded.
/// Last come the draw calls, in draw order: one for each slot that shows a
/// baked attachment on an active bone with a loaded texture. A slot whose
/// texture is not loaded is passed over at this frame; the others are
/// drawn all the same.
///
/// Where the store holds every texture once, no texture that this frame
/// deletes is bound by a draw call of this frame. Where the buffers are
/// those of a bake, every draw call draws within the index buffer.
pub fn draw_frame(skeleton: &Skeleton, baked: &BakedBuffers, textures: &mut TextureStore) -> (plan:
    FramePlan)
    ensures
        plan.deletions@ == old(textures).delete_queue@,
        plan.loads@ == loads(
            *skeleton,
            baked.attachments@,
            old(textures).states@,
            skeleton.draw_order@.len() as int,
        ),
        plan.draws@ == draws(
            *skeleton,
            baked.attachments@,
            old(textures).states@,
            skeleton.draw_order@.len() as int,
        ),
        final(textures).delete_queue@ == Seq::<u64>::empty(),
        final(textures).states@ == asked(
            *skeleton,
            baked.attachments@,
            old(textures).states@,
            skeleton.draw_order@.len() as int,
        ),
        old(textures).wf() ==> final(textures).wf() && spares_what_is_bound(
            plan.deletions@,
            plan.draws@,
        ),
        baked.wf() ==> within_buffer(plan.draws@, baked.indices@.len() as int),
{
    let deletions = textures.drain_deletions();
    let loads = request_textures(skeleton, baked, textures);
    let draws = plan_draws(skeleton, baked, textures);
    proof {
        let n = skeleton.draw_order@.len() as int;
        lemma_draws_after_asking(*skeleton, baked.attachments@, old(textures).states@, n, n);
        if baked.wf() {
            assert forall|i: int| 0 <= i < draws@.len() implies (#[trigger] draws@[i]).index_start
                + draws@[i].index_count <= baked.indices@.len() by {
                crate::dispatch_laws::lemma_draws_within_buffer(
                    *skeleton,
                    *baked,
                    old(textures).states@,
                    n,
                    i,
                );
            }
        }
        if old(textures).wf() {
            crate::dispatch_laws::lemma_deletions_spare_draws(
                *skeleton,
                baked.attachments@,
                old(textures).states@,
                old(textures).delete_queue@,
                n,
            );
        }
    }
    FramePlan { deletions, loads, draws }
}

} // verus!
