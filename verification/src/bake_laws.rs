//! What holds of every bake.

use vstd::prelude::*;
use crate::attachment::{Attachment, AttachmentKind};
use crate::bake_model::{
    bakeable, baked_indices, baked_metadata, baked_vertices, corners_of, failure_at, index_total,
    metadata_of, rebased, vertex_total, vertices_of, BakeLimits,
};
use crate::buffers::{ascending, indices_before, tiles, vertices_before, AttachmentMetadata};
use crate::influence::{bones_known, lemma_parsed_vertices, parse_influences};
use crate::vertex::VertexTag;
use crate::weights::{lemma_normalized_near_one, near_one, weight_sum};

verus! {

/// The buffers grow by whole attachments: their lengths are the totals.
pub proof fn lemma_baked_lengths(atts: Seq<Attachment>, bone_count: u32, n: int)
    ensures
        baked_vertices(atts, bone_count, n).len() == vertex_total(atts, bone_count, n),
        baked_indices(atts, bone_count, n).len() == index_total(atts, n),
        vertex_total(atts, bone_count, n) >= 0,
        index_total(atts, n) >= 0,
    decreases n,
{
    if n > 0 {
        lemma_baked_lengths(atts, bone_count, n - 1);
    }
}

/// The index ranges of the baked attachments divide the index buffer, with
/// no gap and no overlap, and so do their vertex ranges the vertex buffer;
/// every index in an attachment's range points at one of the attachment's
/// own vertices; and entries stand in the order of their attachments.
pub proof fn lemma_bake_divides(atts: Seq<Attachment>, bone_count: u32, limits: BakeLimits, n: int)
    requires
        0 <= n <= atts.len(),
        bakeable(atts, bone_count, limits, n),
    ensures
        tiles(
            baked_metadata(atts, bone_count, n),
            baked_vertices(atts, bone_count, n).len() as int,
            baked_indices(atts, bone_count, n).len() as int,
        ),
        forall|k: int|
            0 <= k < baked_metadata(atts, bone_count, n).len() ==> (#[trigger] baked_metadata(
                atts,
                bone_count,
                n,
            )[k]).owns_its_vertices(baked_indices(atts, bone_count, n)),
        ascending(baked_metadata(atts, bone_count, n)),
        forall|k: int|
            0 <= k < baked_metadata(atts, bone_count, n).len() ==> (#[trigger] baked_metadata(
                atts,
                bone_count,
                n,
            )[k]).attachment < n,
        baked_vertices(atts, bone_count, n).len() <= limits.max_vertices,
        baked_indices(atts, bone_count, n).len() <= limits.max_indices,
    decreases n,
{
    lemma_baked_lengths(atts, bone_count, n);
    if n > 0 {
        lemma_bake_divides(atts, bone_count, limits, n - 1);
        lemma_baked_lengths(atts, bone_count, n - 1);
        let att = atts[n - 1];
        assert(failure_at(atts, bone_count, limits, n - 1) is None);
        let before = baked_metadata(atts, bone_count, n - 1);
        let after = baked_metadata(atts, bone_count, n);
        let old_indices = baked_indices(atts, bone_count, n - 1);
        let new_indices = baked_indices(atts, bone_count, n);
        let base = vertex_total(atts, bone_count, n - 1);
        let first = index_total(atts, n - 1);
        assert forall|k: int| 0 <= k < before.len() implies (#[trigger] before[k]).owns_its_vertices(
            new_indices,
        ) by {
            let entry = before[k];
            assert(entry.owns_its_vertices(old_indices));
            assert(entry.index_end() <= first) by {
                lemma_ranges_within(before, base, first, k);
            }
            assert forall|t: int| entry.index_start <= t < entry.index_end() implies entry.vertex_start
                <= (#[trigger] new_indices[t]) < entry.vertex_end() by {
                assert(new_indices[t] == old_indices[t]);
            }
        }
        if !(att is Clipping) {
            let entry = metadata_of(att, bone_count, (n - 1) as u32, base, first);
            assert(after == before.push(entry));
            assert(vertices_of(att, bone_count, (n - 1) as u32).len() == vertices_of(
                att,
                bone_count,
                0,
            ).len());
            assert(entry.owns_its_vertices(new_indices)) by {
                let corners = corners_of(att);
                assert forall|t: int| entry.index_start <= t < entry.index_end() implies entry.vertex_start
                    <= (#[trigger] new_indices[t]) < entry.vertex_end() by {
                    assert(new_indices[t] == rebased(corners, base)[t - first]);
                    assert(corners[t - first] < entry.vertex_count);
                }
            }
            assert forall|k: int| 0 <= k < after.len() implies (#[trigger] after[k]).owns_its_vertices(
                new_indices,
            ) by {
                if k < before.len() {
                    assert(after[k] == before[k]);
                }
            }
            assert forall|k: int| 0 <= k < after.len() implies (#[trigger] after[k]).attachment < n by {
                if k < before.len() {
                    assert(after[k] == before[k]);
                }
            }
            assert forall|j: int, k: int| 0 <= j < k < after.len() implies (#[trigger] after[j]).attachment
                < (#[trigger] after[k]).attachment by {
                assert(after[j] == before[j]);
                if k < before.len() {
                    assert(after[k] == before[k]);
                }
            }
            assert forall|k: int| 0 <= k < after.len() implies (#[trigger] after[k]).vertex_start
                == vertices_before(after, k) && after[k].index_start
                == indices_before(after, k) by {
                if k < before.len() {
                    assert(after[k] == before[k]);
                    if k > 0 {
                        assert(after[k - 1] == before[k - 1]);
                    }
                } else if k > 0 {
                    assert(after[k - 1] == before[k - 1]);
                }
            }
        }
    }
}

/// In entries that divide the buffers every range lies within them.
pub proof fn lemma_ranges_within(entries: Seq<AttachmentMetadata>, vertices: int, indices: int, k: int)
    requires
        tiles(entries, vertices, indices),
        0 <= k < entries.len(),
    ensures
        entries[k].index_end() <= indices,
        entries[k].vertex_end() <= vertices,
    decreases entries.len() - k,
{
    if k + 1 < entries.len() {
        lemma_ranges_within(entries, vertices, indices, k + 1);
        assert(entries[k + 1].index_start == entries[k].index_end());
        assert(entries[k + 1].vertex_start == entries[k].vertex_end());
    }
}

/// The weights of every baked vertex sum to one within the tolerance: a
/// vertex that follows one bone has the whole weight on it, and the weights
/// of a vertex that follows several were normalised.
pub proof fn lemma_bake_weights(atts: Seq<Attachment>, bone_count: u32, n: int)
    ensures
        forall|i: int|
            0 <= i < baked_vertices(atts, bone_count, n).len() ==> near_one(
                weight_sum((#[trigger] baked_vertices(atts, bone_count, n)[i]).weights),
            ),
    decreases n,
{
    if n > 0 {
        lemma_bake_weights(atts, bone_count, n - 1);
        let before = baked_vertices(atts, bone_count, n - 1);
        let added = vertices_of(atts[n - 1], bone_count, (n - 1) as u32);
        let after = baked_vertices(atts, bone_count, n);
        assert forall|i: int| 0 <= i < after.len() implies near_one(
            weight_sum((#[trigger] after[i]).weights),
        ) by {
            if i < before.len() {
                assert(after[i] == before[i]);
            } else {
                let j = i - before.len();
                assert(after[i] == added[j]);
                lemma_attachment_weights(atts[n - 1], bone_count, (n - 1) as u32, j);
            }
        }
    }
}

/// The weights of each vertex of an attachment sum to one within the
/// tolerance.
pub proof fn lemma_attachment_weights(att: Attachment, bone_count: u32, id: u32, j: int)
    requires
        0 <= j < vertices_of(att, bone_count, id).len(),
    ensures
        near_one(weight_sum(vertices_of(att, bone_count, id)[j].weights)),
{
    match att {
        Attachment::WeightedMesh(w) => {
            let all = parse_influences(w.bones@, w.points@, bone_count)->0;
            let i0 = crate::vertex::kept_influence(all[j], 0);
            let i1 = crate::vertex::kept_influence(all[j], 1);
            let i2 = crate::vertex::kept_influence(all[j], 2);
            let i3 = crate::vertex::kept_influence(all[j], 3);
            lemma_normalized_near_one([i0.weight, i1.weight, i2.weight, i3.weight]);
        },
        _ => {},
    }
}

/// Every vertex knows its attachment: within the vertex range of an entry
/// each vertex is tagged with the attachment and the kind of that entry,
/// and with its own place in the range.
pub proof fn lemma_bake_tags(atts: Seq<Attachment>, bone_count: u32, limits: BakeLimits, n: int)
    requires
        0 <= n <= atts.len(),
        bakeable(atts, bone_count, limits, n),
    ensures
        forall|k: int, i: int|
            #![trigger baked_metadata(atts, bone_count, n)[k], baked_vertices(atts, bone_count, n)[i]]
            0 <= k < baked_metadata(atts, bone_count, n).len() && baked_metadata(
                atts,
                bone_count,
                n,
            )[k].vertex_start <= i < baked_metadata(atts, bone_count, n)[k].vertex_end() ==> {
                let entry = baked_metadata(atts, bone_count, n)[k];
                &&& i < baked_vertices(atts, bone_count, n).len()
                &&& baked_vertices(atts, bone_count, n)[i].tag == VertexTag {
                    attachment: entry.attachment,
                    kind: entry.kind,
                    vertex: (i - entry.vertex_start) as u32,
                }
            },
    decreases n,
{
    if n > 0 {
        lemma_bake_tags(atts, bone_count, limits, n - 1);
        lemma_bake_divides(atts, bone_count, limits, n - 1);
        lemma_bake_divides(atts, bone_count, limits, n);
        lemma_baked_lengths(atts, bone_count, n - 1);
        lemma_baked_lengths(atts, bone_count, n);
        let att = atts[n - 1];
        assert(failure_at(atts, bone_count, limits, n - 1) is None);
        let before = baked_metadata(atts, bone_count, n - 1);
        let after = baked_metadata(atts, bone_count, n);
        let old_vertices = baked_vertices(atts, bone_count, n - 1);
        let new_vertices = baked_vertices(atts, bone_count, n);
        let added = vertices_of(att, bone_count, (n - 1) as u32);
        let base = vertex_total(atts, bone_count, n - 1);
        assert forall|k: int, i: int|
            #![trigger after[k], new_vertices[i]]
            0 <= k < after.len() && after[k].vertex_start <= i < after[k].vertex_end() implies i
            < new_vertices.len() && new_vertices[i].tag == (VertexTag {
            attachment: after[k].attachment,
            kind: after[k].kind,
            vertex: (i - after[k].vertex_start) as u32,
        }) by {
            if k < before.len() {
                assert(after[k] == before[k]);
                lemma_ranges_within(before, base, index_total(atts, n - 1), k);
                assert(new_vertices[i] == old_vertices[i]);
            } else {
                assert(added.len() == vertices_of(att, bone_count, 0).len());
                assert(new_vertices[i] == added[i - base]);
            }
        }
    }
}

/// Every vertex of a weighted mesh follows bones that the skeleton has.
pub proof fn lemma_bake_bones(atts: Seq<Attachment>, bone_count: u32, n: int)
    ensures
        forall|i: int|
            0 <= i < baked_vertices(atts, bone_count, n).len() && (#[trigger] baked_vertices(
                atts,
                bone_count,
                n,
            )[i]).tag.kind == AttachmentKind::WeightedMesh ==> {
                let bones = baked_vertices(atts, bone_count, n)[i].bones;
                &&& bones[0] < bone_count
                &&& bones[1] < bone_count
                &&& bones[2] < bone_count
                &&& bones[3] < bone_count
            },
    decreases n,
{
    if n > 0 {
        lemma_bake_bones(atts, bone_count, n - 1);
        let before = baked_vertices(atts, bone_count, n - 1);
        let added = vertices_of(atts[n - 1], bone_count, (n - 1) as u32);
        let after = baked_vertices(atts, bone_count, n);
        assert forall|i: int|
            0 <= i < after.len() && (#[trigger] after[i]).tag.kind
                == AttachmentKind::WeightedMesh implies after[i].bones[0] < bone_count
            && after[i].bones[1] < bone_count && after[i].bones[2] < bone_count && after[i].bones[3]
            < bone_count by {
            if i < before.len() {
                assert(after[i] == before[i]);
            } else {
                let j = i - before.len();
                assert(after[i] == added[j]);
                match atts[n - 1] {
                    Attachment::WeightedMesh(w) => {
                        lemma_parsed_vertices(w.bones@, w.points@, bone_count, 0, 0);
                        let all = parse_influences(w.bones@, w.points@, bone_count)->0;
                        assert(all[j].len() > 0 && bones_known(all[j], bone_count));
                        assert(all[j][0].bone < bone_count);
                    },
                    _ => {},
                }
            }
        }
    }
}

} // verus!
