//! The result of a bake: the buffers, and for each baked attachment where
//! it lies in them.

use vstd::prelude::*;
use crate::attachment::AttachmentKind;
use crate::report::BakeWarning;
use crate::vertex::Vertex;
use crate::weights::{near_one, weight_sum};

verus! {

/// Where a baked attachment lies in the buffers.
#[derive(Clone, Copy, Debug, PartialEq, Eq, Structural)]
pub struct AttachmentMetadata {
    /// The attachment, by its place among all attachments of the skeleton.
    pub attachment: u32,
    pub kind: AttachmentKind,
    /// The atlas page that holds the attachment's image.
    pub texture: u64,
    pub vertex_start: u32,
    pub vertex_count: u32,
    pub index_start: u32,
    pub index_count: u32,
    /// Whether the attachment moves with the bone of whichever slot shows
    /// it, and not with bones that its vertices name themselves.
    pub follows_slot: bool,
}

/// The result of a bake. Nothing changes it afterwards.
#[derive(Debug)]
pub struct BakedBuffers {
    pub vertices: Vec<Vertex>,
    pub indices: Vec<u32>,
    /// One entry for each attachment that is drawn, in the order of baking.
    pub attachments: Vec<AttachmentMetadata>,
    pub warnings: Vec<BakeWarning>,
}

impl AttachmentMetadata {
    /// The place in the vertex buffer just after the attachment's vertices.
    pub open spec fn vertex_end(self) -> int {
        self.vertex_start + self.vertex_count
    }

    /// The place in the index buffer just after the attachment's indices.
    pub open spec fn index_end(self) -> int {
        self.index_start + self.index_count
    }

    /// Whether every index in the attachment's range points at one of the
    /// attachment's own vertices.
    pub open spec fn owns_its_vertices(self, indices: Seq<u32>) -> bool {
        forall|t: int|
            self.index_start <= t < self.index_end() ==> self.vertex_start <= (#[trigger] indices[t])
                < self.vertex_end()
    }
}

/// Where the vertices of the `k`-th entry start if the entries leave no gap.
pub open spec fn vertices_before(entries: Seq<AttachmentMetadata>, k: int) -> int {
    if k <= 0 {
        0
    } else {
        entries[k - 1].vertex_end()
    }
}

/// Where the indices of the `k`-th entry start if the entries leave no gap.
pub open spec fn indices_before(entries: Seq<AttachmentMetadata>, k: int) -> int {
    if k <= 0 {
        0
    } else {
        entries[k - 1].index_end()
    }
}

/// Whether the ranges of the entries divide buffers of `vertices` vertices
/// and `indices` indices: the first starts at 0, each starts where the one
/// before it ends, and the last ends where the buffer ends.
pub open spec fn tiles(entries: Seq<AttachmentMetadata>, vertices: int, indices: int) -> bool {
    &&& forall|k: int|
        0 <= k < entries.len() ==> {
            &&& (#[trigger] entries[k]).vertex_start == vertices_before(entries, k)
            &&& entries[k].index_start == indices_before(entries, k)
        }
    &&& vertices_before(entries, entries.len() as int) == vertices
    &&& indices_before(entries, entries.len() as int) == indices
}

/// Whether later entries are of later attachments.
pub open spec fn ascending(entries: Seq<AttachmentMetadata>) -> bool {
    forall|j: int, k: int|
        0 <= j < k < entries.len() ==> (#[trigger] entries[j]).attachment < (
        #[trigger] entries[k]).attachment
}

impl BakedBuffers {
    /// What holds of every bake: the index ranges of the attachments divide
    /// the index buffer, their vertex ranges divide the vertex buffer, each
    /// attachment draws with its own vertices only, and the entries stand
    /// in the order of their attachments.
    pub open spec fn wf(&self) -> bool {
        &&& tiles(self.attachments@, self.vertices@.len() as int, self.indices@.len() as int)
        &&& forall|k: int|
            0 <= k < self.attachments@.len() ==> (#[trigger] self.attachments@[k]).owns_its_vertices(
                self.indices@,
            )
        &&& ascending(self.attachments@)
    }

    /// Whether the weights of every vertex sum to one within the tolerance.
    pub open spec fn weights_sum_to_one(&self) -> bool {
        forall|i: int|
            0 <= i < self.vertices@.len() ==> near_one(
                weight_sum((#[trigger] self.vertices@[i]).weights),
            )
    }
}

// ---------------------------------------------------------------------------
// Finding an attachment again
// ---------------------------------------------------------------------------


/// The place of the first of the first `n` entries that is of the given
/// attachment.
pub open spec fn position(entries: Seq<AttachmentMetadata>, attachment: u32, n: int) -> Option<int>
    decreases n,
{
    if n <= 0 {
        None
    } else if position(entries, attachment, n - 1) is Some {
        position(entries, attachment, n - 1)
    } else if entries[n - 1].attachment == attachment {
        Some(n - 1)
    } else {
        None
    }
}

/// The entry of an attachment, if the attachment was baked.
pub open spec fn entry_of(entries: Seq<AttachmentMetadata>, attachment: u32) -> Option<
    AttachmentMetadata,
> {
    match position(entries, attachment, entries.len() as int) {
        Some(k) => Some(entries[k]),
        None => None,
    }
}

/// `position` finds the first entry of the attachment, and finds none only
/// if there is none.
pub proof fn lemma_position(entries: Seq<AttachmentMetadata>, attachment: u32, n: int)
    requires
        0 <= n <= entries.len(),
    ensures
        match position(entries, attachment, n) {
            Some(k) => {
                &&& 0 <= k < n
                &&& entries[k].attachment == attachment
                &&& forall|j: int| 0 <= j < k ==> (#[trigger] entries[j]).attachment != attachment
            },
            None => forall|j: int| 0 <= j < n ==> (#[trigger] entries[j]).attachment != attachment,
        },
    decreases n,
{
    if n > 0 {
        lemma_position(entries, attachment, n - 1);
    }
}

impl BakedBuffers {
    /// The place, among the entries, of the entry of an attachment; `None`
    /// if the attachment was not baked.
    pub fn find(&self, attachment: u32) -> (found: Option<usize>)
        ensures
            match found {
                Some(k) => position(self.attachments@, attachment, self.attachments@.len() as int)
                    == Some(k as int) && k < self.attachments@.len(),
                None => position(self.attachments@, attachment, self.attachments@.len() as int)
                    is None,
            },
    {
        let mut k: usize = 0;
        while k < self.attachments.len()
            invariant
                k <= self.attachments.len(),
                position(self.attachments@, attachment, k as int) is None,
            decreases self.attachments.len() - k,
        {
            if self.attachments[k].attachment == attachment {
                proof {
                    lemma_position_stays(
                        self.attachments@,
                        attachment,
                        k as int + 1,
                        self.attachments@.len() as int,
                    );
                }
                return Some(k);
            }
            k = k + 1;
        }
        None
    }
}

/// What was found among the first entries is found among more.
proof fn lemma_position_stays(entries: Seq<AttachmentMetadata>, attachment: u32, few: int, many: int)
    requires
        0 <= few <= many,
        position(entries, attachment, few) is Some,
    ensures
        position(entries, attachment, many) == position(entries, attachment, few),
    decreases many - few,
{
    if few < many {
        lemma_position_stays(entries, attachment, few, many - 1);
    }
}

} // verus!
