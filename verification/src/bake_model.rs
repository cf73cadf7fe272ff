//! What a bake yields, attachment by attachment.
//!
//! Attachments are baked skin after skin, each skin's in the order in which
//! it lists them. An attachment is known by its place in that order. A
//! clipping attachment is passed over: it adds nothing to any buffer.

use vstd::prelude::*;
use crate::attachment::{Attachment, AttachmentKind, MeshAttachment, RegionAttachment, WeightedMeshAttachment};
use crate::buffers::{AttachmentMetadata, BakedBuffers};
use crate::influence::{parse_influences, Influence};
use crate::report::{BakeFailure, BakeWarning, ParseStage, Table};
use crate::vertex::{rigid_vertex, skinned_vertex, Vertex, VertexTag};

verus! {

/// The most that a bake may produce.
#[derive(Clone, Copy, Debug, PartialEq, Eq, Structural)]
pub struct BakeLimits {
    pub max_vertices: u32,
    pub max_indices: u32,
    /// The number of attachments that the attachment-to-slot table can
    /// hold: a baked attachment stands below it among all attachments.
    pub max_attachments: u32,
}

// ---------------------------------------------------------------------------
// One attachment
// ---------------------------------------------------------------------------

/// Whether every triangle corner names one of `vertex_count` vertices.
pub open spec fn triangles_in_range(triangles: Seq<u32>, vertex_count: int) -> bool {
    forall|t: int| 0 <= t < triangles.len() ==> (#[trigger] triangles[t]) < vertex_count
}

/// What is wrong with the data of a weighted mesh, if anything.
pub open spec fn weighted_defect(w: WeightedMeshAttachment, bone_count: u32) -> Option<ParseStage> {
    match parse_influences(w.bones@, w.points@, bone_count) {
        None => Some(ParseStage::Influences),
        Some(all) => if w.uvs@.len() != all.len() {
            Some(ParseStage::TextureCoordinates)
        } else if !triangles_in_range(w.triangles@, all.len() as int) {
            Some(ParseStage::Triangles)
        } else {
            None
        },
    }
}

/// What is wrong with the data of an attachment, if anything.
pub open spec fn defect(att: Attachment, bone_count: u32) -> Option<ParseStage> {
    match att {
        Attachment::Region(_) => None,
        Attachment::Mesh(m) => if m.uvs@.len() != m.positions@.len() {
            Some(ParseStage::TextureCoordinates)
        } else if !triangles_in_range(m.triangles@, m.positions@.len() as int) {
            Some(ParseStage::Triangles)
        } else {
            None
        },
        Attachment::WeightedMesh(w) => weighted_defect(w, bone_count),
        Attachment::Clipping(_) => None,
    }
}

/// The four vertices of a region.
pub open spec fn region_vertices(r: RegionAttachment, id: u32) -> Seq<Vertex> {
    Seq::new(
        4,
        |j: int|
            rigid_vertex(
                r.corners[j],
                r.uvs[j],
                r.color,
                VertexTag { attachment: id, kind: AttachmentKind::Region, vertex: j as u32 },
            ),
    )
}

/// The vertices of an unweighted mesh: one for each of its own.
pub open spec fn mesh_vertices(m: MeshAttachment, id: u32) -> Seq<Vertex> {
    Seq::new(
        m.positions@.len(),
        |j: int|
            rigid_vertex(
                m.positions@[j],
                m.uvs@[j],
                m.color,
                VertexTag { attachment: id, kind: AttachmentKind::Mesh, vertex: j as u32 },
            ),
    )
}

/// The first `count` vertices of a weighted mesh whose vertices have the
/// influences `all`.
pub open spec fn skinned_vertices(
    all: Seq<Seq<Influence>>,
    w: WeightedMeshAttachment,
    id: u32,
    count: int,
) -> Seq<Vertex> {
    Seq::new(
        count as nat,
        |j: int|
            skinned_vertex(
                all[j],
                w.uvs@[j],
                w.color,
                VertexTag { attachment: id, kind: AttachmentKind::WeightedMesh, vertex: j as u32 },
            ),
    )
}

/// The vertices of a weighted mesh: one for each that its lists hold.
pub open spec fn weighted_vertices(w: WeightedMeshAttachment, bone_count: u32, id: u32) -> Seq<Vertex> {
    match parse_influences(w.bones@, w.points@, bone_count) {
        Some(all) => skinned_vertices(all, w, id, all.len() as int),
        None => Seq::empty(),
    }
}

/// The vertices that an attachment adds to the vertex buffer.
pub open spec fn vertices_of(att: Attachment, bone_count: u32, id: u32) -> Seq<Vertex> {
    match att {
        Attachment::Region(r) => region_vertices(r, id),
        Attachment::Mesh(m) => mesh_vertices(m, id),
        Attachment::WeightedMesh(w) => weighted_vertices(w, bone_count, id),
        Attachment::Clipping(_) => Seq::empty(),
    }
}

/// The two triangles of a region, by corner: they share the diagonal from
/// corner 0 to corner 2 and turn the same way.
pub open spec fn quad_corners() -> Seq<u32> {
    seq![0u32, 1u32, 2u32, 2u32, 3u32, 0u32]
}

/// The triangle corners of an attachment, numbered within the attachment.
pub open spec fn corners_of(att: Attachment) -> Seq<u32> {
    match att {
        Attachment::Region(_) => quad_corners(),
        Attachment::Mesh(m) => m.triangles@,
        Attachment::WeightedMesh(w) => w.triangles@,
        Attachment::Clipping(_) => Seq::empty(),
    }
}

/// Triangle corners renumbered for a vertex buffer in which their
/// attachment starts at `base`.
pub open spec fn rebased(corners: Seq<u32>, base: int) -> Seq<u32> {
    Seq::new(corners.len(), |t: int| (base + corners[t]) as u32)
}

/// The warnings for the first `count` vertices of a weighted mesh.
pub open spec fn truncations(all: Seq<Seq<Influence>>, id: u32, count: int) -> Seq<BakeWarning>
    decreases count,
{
    if count <= 0 {
        Seq::empty()
    } else if all[count - 1].len() > 4 {
        truncations(all, id, count - 1).push(
            BakeWarning::InfluencesTruncated {
                attachment: id,
                vertex: (count - 1) as u32,
                declared: all[count - 1].len() as u32,
            },
        )
    } else {
        truncations(all, id, count - 1)
    }
}

/// The warnings that baking an attachment gives.
pub open spec fn warnings_of(att: Attachment, bone_count: u32, id: u32) -> Seq<BakeWarning> {
    match att {
        Attachment::WeightedMesh(w) => match parse_influences(w.bones@, w.points@, bone_count) {
            Some(all) => truncations(all, id, all.len() as int),
            None => Seq::empty(),
        },
        _ => Seq::empty(),
    }
}

/// The entry of an attachment that is baked when the buffers hold
/// `vertex_start` vertices and `index_start` indices.
pub open spec fn metadata_of(
    att: Attachment,
    bone_count: u32,
    id: u32,
    vertex_start: int,
    index_start: int,
) -> AttachmentMetadata {
    AttachmentMetadata {
        attachment: id,
        kind: att.kind(),
        texture: att.texture(),
        vertex_start: vertex_start as u32,
        vertex_count: vertices_of(att, bone_count, id).len() as u32,
        index_start: index_start as u32,
        index_count: corners_of(att).len() as u32,
        follows_slot: !(att is WeightedMesh),
    }
}

/// Why the attachment that stands at `id` among all cannot be baked into
/// buffers that hold `vertices` vertices and `indices` indices; `None` if it
/// can. A clipping attachment is passed over and never fails.
pub open spec fn failure_of(
    att: Attachment,
    bone_count: u32,
    limits: BakeLimits,
    id: int,
    vertices: int,
    indices: int,
) -> Option<BakeFailure> {
    if att is Clipping {
        None
    } else if defect(att, bone_count) is Some {
        Some(BakeFailure::AssetLoadFailure { stage: defect(att, bone_count)->0 })
    } else if id >= limits.max_attachments {
        Some(BakeFailure::CapacityExceeded { table: Table::Attachments })
    } else if vertices + vertices_of(att, bone_count, 0).len() > limits.max_vertices {
        Some(BakeFailure::CapacityExceeded { table: Table::Vertices })
    } else if indices + corners_of(att).len() > limits.max_indices {
        Some(BakeFailure::CapacityExceeded { table: Table::Indices })
    } else {
        None
    }
}

// ---------------------------------------------------------------------------
// All attachments
// ---------------------------------------------------------------------------

/// The number of vertices of the first `n` attachments.
pub open spec fn vertex_total(atts: Seq<Attachment>, bone_count: u32, n: int) -> int
    decreases n,
{
    if n <= 0 {
        0
    } else {
        vertex_total(atts, bone_count, n - 1) + vertices_of(atts[n - 1], bone_count, 0).len()
    }
}

/// The number of indices of the first `n` attachments.
pub open spec fn index_total(atts: Seq<Attachment>, n: int) -> int
    decreases n,
{
    if n <= 0 {
        0
    } else {
        index_total(atts, n - 1) + corners_of(atts[n - 1]).len()
    }
}

/// The vertex buffer of the first `n` attachments: their vertices, one
/// attachment after the other.
pub open spec fn baked_vertices(atts: Seq<Attachment>, bone_count: u32, n: int) -> Seq<Vertex>
    decreases n,
{
    if n <= 0 {
        Seq::empty()
    } else {
        baked_vertices(atts, bone_count, n - 1) + vertices_of(atts[n - 1], bone_count, (n - 1) as u32)
    }
}

/// The index buffer of the first `n` attachments: their triangle corners,
/// one attachment after the other, each renumbered by the number of
/// vertices that come before its own.
pub open spec fn baked_indices(atts: Seq<Attachment>, bone_count: u32, n: int) -> Seq<u32>
    decreases n,
{
    if n <= 0 {
        Seq::empty()
    } else {
        baked_indices(atts, bone_count, n - 1) + rebased(
            corners_of(atts[n - 1]),
            vertex_total(atts, bone_count, n - 1),
        )
    }
}

/// The entries of those of the first `n` attachments that are drawn.
pub open spec fn baked_metadata(atts: Seq<Attachment>, bone_count: u32, n: int) -> Seq<
    AttachmentMetadata,
>
    decreases n,
{
    if n <= 0 {
        Seq::empty()
    } else if atts[n - 1] is Clipping {
        baked_metadata(atts, bone_count, n - 1)
    } else {
        baked_metadata(atts, bone_count, n - 1).push(
            metadata_of(
                atts[n - 1],
                bone_count,
                (n - 1) as u32,
                vertex_total(atts, bone_count, n - 1),
                index_total(atts, n - 1),
            ),
        )
    }
}

/// The warnings for the first `n` attachments.
pub open spec fn baked_warnings(atts: Seq<Attachment>, bone_count: u32, n: int) -> Seq<BakeWarning>
    decreases n,
{
    if n <= 0 {
        Seq::empty()
    } else {
        baked_warnings(atts, bone_count, n - 1) + warnings_of(atts[n - 1], bone_count, (n - 1) as u32)
    }
}

/// Why the attachment at `n` cannot be baked after those before it.
pub open spec fn failure_at(atts: Seq<Attachment>, bone_count: u32, limits: BakeLimits, n: int) -> Option<
    BakeFailure,
> {
    failure_of(
        atts[n],
        bone_count,
        limits,
        n,
        vertex_total(atts, bone_count, n),
        index_total(atts, n),
    )
}

/// Whether each of the first `n` attachments can be baked after those
/// before it.
pub open spec fn bakeable(atts: Seq<Attachment>, bone_count: u32, limits: BakeLimits, n: int) -> bool {
    forall|k: int| 0 <= k < n ==> (#[trigger] failure_at(atts, bone_count, limits, k)) is None
}

impl BakedBuffers {
    /// Whether these are the buffers of the first `n` of the attachments.
    pub open spec fn holds(&self, atts: Seq<Attachment>, bone_count: u32, n: int) -> bool {
        &&& self.vertices@ == baked_vertices(atts, bone_count, n)
        &&& self.indices@ == baked_indices(atts, bone_count, n)
        &&& self.attachments@ == baked_metadata(atts, bone_count, n)
        &&& self.warnings@ == baked_warnings(atts, bone_count, n)
    }
}

} // verus!
