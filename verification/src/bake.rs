//! Baking: the attachments of a skeleton become one vertex buffer, one
//! index buffer and, for each attachment that is drawn, the range of the
//! index buffer that draws it.
//!
//! An attachment is inspected before anything is written for it, so a bake
//! that fails has failed at the first attachment that cannot be baked.

use vstd::prelude::*;
use crate::attachment::{
    attachments_of, lemma_attachments_of_entry, Attachment, AttachmentKind, MeshAttachment,
    RegionAttachment, SkeletonData, WeightedMeshAttachment,
};
use crate::bake_laws::{lemma_bake_divides, lemma_bake_weights, lemma_baked_lengths};
use crate::bake_model::{
    bakeable, corners_of, defect, failure_at, failure_of, mesh_vertices, metadata_of, quad_corners,
    rebased, region_vertices, skinned_vertices, triangles_in_range, truncations, vertices_of,
    warnings_of, weighted_vertices, BakeLimits,
};
use crate::buffers::{AttachmentMetadata, BakedBuffers};
use crate::influence::{count_vertices, lemma_parse_step, parse_from, parse_influences};
use crate::report::{BakeError, BakeFailure, BakeWarning, ParseStage, Table};
use crate::vertex::{rigid_vertex, skin_vertex, Vertex, VertexTag};

verus! {

// ---------------------------------------------------------------------------
// Inspecting an attachment
// ---------------------------------------------------------------------------

/// How much an attachment adds to the buffers.
#[derive(Clone, Copy, Debug, PartialEq, Eq, Structural)]
pub struct Footprint {
    pub vertices: usize,
    pub indices: usize,
}

/// Checks that every triangle corner names a vertex of the mesh.
fn check_triangles(triangles: &Vec<u32>, vertex_count: usize) -> (ok: bool)
    ensures
        ok == triangles_in_range(triangles@, vertex_count as int),
{
    let mut t: usize = 0;
    while t < triangles.len()
        invariant
            t <= triangles.len(),
            forall|i: int| 0 <= i < t ==> (#[trigger] triangles@[i]) < vertex_count,
        decreases triangles.len() - t,
    {
        if triangles[t] as usize >= vertex_count {
            return false;
        }
        t = t + 1;
    }
    true
}

/// Reads an attachment without writing anything: says what is wrong with
/// its data, or how much it adds to the buffers.
pub fn inspect(att: &Attachment, bone_count: u32) -> (found: Result<Footprint, ParseStage>)
    ensures
        match found {
            Ok(footprint) => {
                &&& defect(*att, bone_count) is None
                &&& footprint.vertices == vertices_of(*att, bone_count, 0).len()
                &&& footprint.indices == corners_of(*att).len()
            },
            Err(stage) => defect(*att, bone_count) == Some(stage),
        },
{
    match att {
        Attachment::Region(_) => Ok(Footprint { vertices: 4, indices: 6 }),
        Attachment::Mesh(m) => {
            if m.uvs.len() != m.positions.len() {
                Err(ParseStage::TextureCoordinates)
            } else if !check_triangles(&m.triangles, m.positions.len()) {
                Err(ParseStage::Triangles)
            } else {
                Ok(Footprint { vertices: m.positions.len(), indices: m.triangles.len() })
            }
        },
        Attachment::WeightedMesh(w) => {
            match count_vertices(&w.bones, &w.points, bone_count) {
                None => Err(ParseStage::Influences),
                Some(count) => {
                    if w.uvs.len() != count {
                        Err(ParseStage::TextureCoordinates)
                    } else if !check_triangles(&w.triangles, count) {
                        Err(ParseStage::Triangles)
                    } else {
                        Ok(Footprint { vertices: count, indices: w.triangles.len() })
                    }
                },
            }
        },
        Attachment::Clipping(_) => Ok(Footprint { vertices: 0, indices: 0 }),
    }
}

// ---------------------------------------------------------------------------
// Writing an attachment
// ---------------------------------------------------------------------------

/// Appends the four vertices of a region.
fn emit_region(r: &RegionAttachment, id: u32, vertices: &mut Vec<Vertex>)
    ensures
        final(vertices)@ == old(vertices)@ + region_vertices(*r, id),
{
    let mut j: usize = 0;
    while j < 4
        invariant
            j <= 4,
            vertices@ == old(vertices)@ + region_vertices(*r, id).take(j as int),
        decreases 4 - j,
    {
        let tag = VertexTag { attachment: id, kind: AttachmentKind::Region, vertex: j as u32 };
        vertices.push(rigid_vertex(r.corners[j], r.uvs[j], r.color, tag));
        assert(region_vertices(*r, id).take(j + 1) == region_vertices(*r, id).take(j as int).push(
            region_vertices(*r, id)[j as int],
        ));
        j = j + 1;
    }
    assert(region_vertices(*r, id).take(4) == region_vertices(*r, id));
}

/// Appends the vertices of an unweighted mesh.
fn emit_mesh(m: &MeshAttachment, id: u32, vertices: &mut Vec<Vertex>)
    requires
        m.positions.len() <= u32::MAX,
        m.uvs.len() == m.positions.len(),
    ensures
        final(vertices)@ == old(vertices)@ + mesh_vertices(*m, id),
{
    let mut j: usize = 0;
    while j < m.positions.len()
        invariant
            j <= m.positions.len() <= u32::MAX,
            m.uvs.len() == m.positions.len(),
            vertices@ == old(vertices)@ + mesh_vertices(*m, id).take(j as int),
        decreases m.positions.len() - j,
    {
        let tag = VertexTag { attachment: id, kind: AttachmentKind::Mesh, vertex: j as u32 };
        vertices.push(rigid_vertex(m.positions[j], m.uvs[j], m.color, tag));
        assert(mesh_vertices(*m, id).take(j + 1) == mesh_vertices(*m, id).take(j as int).push(
            mesh_vertices(*m, id)[j as int],
        ));
        j = j + 1;
    }
    assert(mesh_vertices(*m, id).take(m.positions.len() as int) == mesh_vertices(*m, id));
}

/// Appends the vertices of a weighted mesh whose lists were checked, and
/// the warnings for those of its vertices that lose influences.
fn emit_weighted(
    w: &WeightedMeshAttachment,
    bone_count: u32,
    id: u32,
    count: usize,
    vertices: &mut Vec<Vertex>,
    warnings: &mut Vec<BakeWarning>,
)
    requires
        parse_influences(w.bones@, w.points@, bone_count) is Some,
        parse_influences(w.bones@, w.points@, bone_count)->0.len() == count,
        w.uvs.len() == count,
        count <= u32::MAX,
    ensures
        final(vertices)@ == old(vertices)@ + weighted_vertices(*w, bone_count, id),
        final(warnings)@ == old(warnings)@ + warnings_of(Attachment::WeightedMesh(*w), bone_count, id),
{
    let ghost all = parse_influences(w.bones@, w.points@, bone_count)->0;
    let mut j: usize = 0;
    let mut at: usize = 0;
    let mut used: usize = 0;
    assert(all.skip(0) == all);
    while j < count
        invariant
            j <= count <= u32::MAX,
            all.len() == count,
            w.uvs.len() == count,
            at <= w.bones.len(),
            used <= w.points.len(),
            parse_from(w.bones@, w.points@, bone_count, at as int, used as int) == Some(
                all.skip(j as int),
            ),
            vertices@ == old(vertices)@ + skinned_vertices(all, *w, id, j as int),
            warnings@ == old(warnings)@ + truncations(all, id, j as int),
        decreases count - j,
    {
        proof {
            lemma_parse_step(w.bones@, w.points@, bone_count, at as int, used as int, all, j as int);
        }
        let declared = w.bones[at];
        let tag = VertexTag { attachment: id, kind: AttachmentKind::WeightedMesh, vertex: j as u32 };
        let v = skin_vertex(
            &w.bones,
            &w.points,
            at + 1,
            used,
            declared as usize,
            w.uvs[j],
            w.color,
            tag,
        );
        vertices.push(v);
        if declared > 4 {
            warnings.push(
                BakeWarning::InfluencesTruncated { attachment: id, vertex: j as u32, declared },
            );
        }
        assert(skinned_vertices(all, *w, id, j + 1) == skinned_vertices(all, *w, id, j as int).push(
            v,
        ));
        at = at + 1 + declared as usize;
        used = used + declared as usize;
        j = j + 1;
    }
}

/// Appends the two triangles of a region whose vertices start at `base`.
fn emit_quad(base: u32, indices: &mut Vec<u32>)
    requires
        base + 4 <= u32::MAX,
    ensures
        final(indices)@ == old(indices)@ + rebased(quad_corners(), base as int),
{
    indices.push(base);
    indices.push(base + 1);
    indices.push(base + 2);
    indices.push(base + 2);
    indices.push(base + 3);
    indices.push(base);
    assert(indices@ == old(indices)@ + rebased(quad_corners(), base as int));
}

/// Appends the triangles of a mesh whose vertices start at `base`.
fn emit_triangles(triangles: &Vec<u32>, base: u32, vertex_count: usize, indices: &mut Vec<u32>)
    requires
        triangles_in_range(triangles@, vertex_count as int),
        base + vertex_count <= u32::MAX,
    ensures
        final(indices)@ == old(indices)@ + rebased(triangles@, base as int),
{
    let mut t: usize = 0;
    while t < triangles.len()
        invariant
            t <= triangles.len(),
            triangles_in_range(triangles@, vertex_count as int),
            base + vertex_count <= u32::MAX,
            indices@ == old(indices)@ + rebased(triangles@, base as int).take(t as int),
        decreases triangles.len() - t,
    {
        indices.push(base + triangles[t]);
        assert(rebased(triangles@, base as int).take(t + 1) == rebased(
            triangles@,
            base as int,
        ).take(t as int).push(rebased(triangles@, base as int)[t as int]));
        t = t + 1;
    }
    assert(rebased(triangles@, base as int).take(triangles.len() as int) == rebased(
        triangles@,
        base as int,
    ));
}

// ---------------------------------------------------------------------------
// The bake
// ---------------------------------------------------------------------------

/// Bakes one attachment into buffers that hold those before it.
fn bake_one(
    att: &Attachment,
    bone_count: u32,
    limits: &BakeLimits,
    id: usize,
    out: &mut BakedBuffers,
) -> (done: Result<(), BakeFailure>)
    requires
        old(out).vertices.len() <= limits.max_vertices,
        old(out).indices.len() <= limits.max_indices,
    ensures
        match done {
            Err(failure) => failure_of(
                *att,
                bone_count,
                *limits,
                id as int,
                old(out).vertices@.len() as int,
                old(out).indices@.len() as int,
            ) == Some(failure),
            Ok(()) => {
                &&& failure_of(
                    *att,
                    bone_count,
                    *limits,
                    id as int,
                    old(out).vertices@.len() as int,
                    old(out).indices@.len() as int,
                ) is None
                &&& final(out).vertices@ == old(out).vertices@ + vertices_of(*att, bone_count, id as u32)
                &&& final(out).indices@ == old(out).indices@ + rebased(
                    corners_of(*att),
                    old(out).vertices@.len() as int,
                )
                &&& final(out).attachments@ == if *att is Clipping {
                    old(out).attachments@
                } else {
                    old(out).attachments@.push(
                        metadata_of(
                            *att,
                            bone_count,
                            id as u32,
                            old(out).vertices@.len() as int,
                            old(out).indices@.len() as int,
                        ),
                    )
                }
                &&& final(out).warnings@ == old(out).warnings@ + warnings_of(*att, bone_count, id as u32)
            },
        },
{
    if let Attachment::Clipping(_) = att {
        assert(out.vertices@ + vertices_of(*att, bone_count, id as u32) == out.vertices@);
        assert(out.indices@ + rebased(corners_of(*att), out.vertices@.len() as int) == out.indices@);
        assert(out.warnings@ + warnings_of(*att, bone_count, id as u32) == out.warnings@);
        return Ok(());
    }
    let footprint = match inspect(att, bone_count) {
        Err(stage) => {
            return Err(BakeFailure::AssetLoadFailure { stage });
        },
        Ok(footprint) => footprint,
    };
    if id >= limits.max_attachments as usize {
        return Err(BakeFailure::CapacityExceeded { table: Table::Attachments });
    }
    if footprint.vertices > limits.max_vertices as usize - out.vertices.len() {
        return Err(BakeFailure::CapacityExceeded { table: Table::Vertices });
    }
    if footprint.indices > limits.max_indices as usize - out.indices.len() {
        return Err(BakeFailure::CapacityExceeded { table: Table::Indices });
    }
    let id = id as u32;
    let vertex_start = out.vertices.len() as u32;
    let index_start = out.indices.len() as u32;
    out.attachments.push(
        AttachmentMetadata {
            attachment: id,
            kind: att.kind(),
            texture: att.texture(),
            vertex_start,
            vertex_count: footprint.vertices as u32,
            index_start,
            index_count: footprint.indices as u32,
            follows_slot: match att {
                Attachment::WeightedMesh(_) => false,
                _ => true,
            },
        },
    );
    match att {
        Attachment::Region(r) => {
            emit_region(r, id, &mut out.vertices);
            emit_quad(vertex_start, &mut out.indices);
            assert(out.warnings@ + warnings_of(*att, bone_count, id) == out.warnings@);
        },
        Attachment::Mesh(m) => {
            emit_mesh(m, id, &mut out.vertices);
            emit_triangles(&m.triangles, vertex_start, footprint.vertices, &mut out.indices);
            assert(out.warnings@ + warnings_of(*att, bone_count, id) == out.warnings@);
        },
        Attachment::WeightedMesh(w) => {
            emit_weighted(w, bone_count, id, footprint.vertices, &mut out.vertices, &mut out.warnings);
            emit_triangles(&w.triangles, vertex_start, footprint.vertices, &mut out.indices);
        },
        Attachment::Clipping(_) => {},
    }
    Ok(())
}

/// Bakes the attachments of a skeleton.
///
/// The bake succeeds if every attachment can be baked after those before
/// it. The vertex buffer then holds the vertices of the attachments, one
/// attachment after the other, and the index buffer their triangles, each
/// renumbered to its place in the vertex buffer.
///
/// Otherwise the error names the first attachment that cannot be baked,
/// and says why: its data is malformed, or with it a buffer or the
/// attachment table would hold more than `limits` allows.
pub fn bake(data: &SkeletonData, limits: &BakeLimits) -> (result: Result<BakedBuffers, BakeError>)
    ensures
        match result {
            Ok(baked) => {
                let atts = data.attachments();
                &&& bakeable(atts, data.bone_count, *limits, atts.len() as int)
                &&& baked.holds(atts, data.bone_count, atts.len() as int)
                &&& baked.wf()
                &&& baked.weights_sum_to_one()
            },
            Err(error) => {
                let atts = data.attachments();
                let n = attachments_of(data.skins@, error.skin as int).len() + error.entry;
                &&& error.skin < data.skins@.len()
                &&& error.entry < data.skins@[error.skin as int].attachments@.len()
                &&& bakeable(atts, data.bone_count, *limits, n)
                &&& failure_at(atts, data.bone_count, *limits, n) == Some(error.failure)
            },
        },
{
    let mut out = BakedBuffers {
        vertices: Vec::new(),
        indices: Vec::new(),
        attachments: Vec::new(),
        warnings: Vec::new(),
    };
    let ghost atts = data.attachments();
    let bone_count = data.bone_count;
    // The place of the next attachment among all, as far as it can be counted.
    let mut id: usize = 0;
    let mut s: usize = 0;
    while s < data.skins.len()
        invariant
            s <= data.skins.len(),
            atts == data.attachments(),
            bone_count == data.bone_count,
            id == vstd::math::min(attachments_of(data.skins@, s as int).len() as int, usize::MAX as int),
            bakeable(atts, bone_count, *limits, attachments_of(data.skins@, s as int).len() as int),
            out.holds(atts, bone_count, attachments_of(data.skins@, s as int).len() as int),
            out.vertices.len() <= limits.max_vertices,
            out.indices.len() <= limits.max_indices,
        decreases data.skins.len() - s,
    {
        let skin = &data.skins[s];
        let ghost before = attachments_of(data.skins@, s as int).len() as int;
        let mut e: usize = 0;
        while e < skin.attachments.len()
            invariant
                s < data.skins.len(),
                *skin == data.skins@[s as int],
                e <= skin.attachments.len(),
                atts == data.attachments(),
                bone_count == data.bone_count,
                before == attachments_of(data.skins@, s as int).len(),
                id == vstd::math::min(before + e, usize::MAX as int),
                bakeable(atts, bone_count, *limits, before + e),
                out.holds(atts, bone_count, before + e),
                out.vertices.len() <= limits.max_vertices,
                out.indices.len() <= limits.max_indices,
            decreases skin.attachments.len() - e,
        {
            let ghost n = before + e;
            proof {
                lemma_attachments_of_entry(data.skins@, s as int, e as int);
                lemma_baked_lengths(atts, bone_count, n);
            }
            let att = &skin.attachments[e];
            assert(*att == atts[n]);
            match bake_one(att, bone_count, limits, id, &mut out) {
                Err(failure) => {
                    return Err(BakeError { skin: s, entry: e, failure });
                },
                Ok(()) => {},
            }
            proof {
                lemma_baked_lengths(atts, bone_count, n + 1);
            }
            if id < usize::MAX {
                id = id + 1;
            }
            e = e + 1;
        }
        s = s + 1;
    }
    proof {
        lemma_bake_divides(atts, bone_count, *limits, atts.len() as int);
        lemma_bake_weights(atts, bone_count, atts.len() as int);
        lemma_baked_lengths(atts, bone_count, atts.len() as int);
    }
    Ok(out)
}

} // verus!
