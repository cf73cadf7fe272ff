//! The baked vertex.

use vstd::prelude::*;
use crate::attachment::AttachmentKind;
use crate::geometry::{Color, Point};
use crate::influence::{influences_at, Influence, WeightedPoint};
use crate::weights::{normalize, normalized, WEIGHT_ONE};

verus! {

/// What a vertex shader needs to find the slot, and with it the deform
/// data, of the attachment that a vertex belongs to.
#[derive(Clone, Copy, Debug, PartialEq, Eq, Structural)]
pub struct VertexTag {
    /// The attachment, by its place among all attachments of the skeleton.
    pub attachment: u32,
    pub kind: AttachmentKind,
    /// The place of the vertex within its attachment.
    pub vertex: u32,
}

/// One vertex of the static vertex buffer.
///
/// A vertex follows up to four bones. `positions[k]` is the vertex in the
/// local space of the bone `bones[k]`, which moves it with `weights[k]`
/// millionths of the whole. A vertex of a region or of an unweighted mesh
/// has one position at full weight and follows the bone of whichever slot
/// shows its attachment: its `bones` are not read.
#[derive(Clone, Copy, Debug, PartialEq, Eq)]
pub struct Vertex {
    pub positions: [Point; 4],
    pub weights: [u32; 4],
    pub bones: [u32; 4],
    pub color: Color,
    pub uv: Point,
    pub tag: VertexTag,
}

/// The vertex of a region or of an unweighted mesh.
pub open spec fn rigid_vertex_spec(position: Point, uv: Point, color: Color, tag: VertexTag) -> Vertex {
    let origin = Point::origin_spec();
    Vertex {
        positions: [position, origin, origin, origin],
        weights: [WEIGHT_ONE, 0u32, 0u32, 0u32],
        bones: [0u32, 0u32, 0u32, 0u32],
        color,
        uv,
        tag,
    }
}

/// The vertex of a region or of an unweighted mesh.
#[verifier::when_used_as_spec(rigid_vertex_spec)]
pub fn rigid_vertex(position: Point, uv: Point, color: Color, tag: VertexTag) -> (v: Vertex)
    ensures
        v == rigid_vertex_spec(position, uv, color, tag),
{
    let origin = Point::origin();
    Vertex {
        positions: [position, origin, origin, origin],
        weights: [WEIGHT_ONE, 0, 0, 0],
        bones: [0, 0, 0, 0],
        color,
        uv,
        tag,
    }
}

/// The influence that takes the place `k` of a vertex: the `k`-th of those
/// that the vertex declares, or one of no weight where it declares fewer.
pub open spec fn kept_influence(influences: Seq<Influence>, k: int) -> Influence {
    if 0 <= k < influences.len() {
        influences[k]
    } else {
        Influence { bone: 0, position: Point::origin_spec(), weight: 0 }
    }
}

/// The vertex of a weighted mesh. Of more than four influences the first
/// four are kept; the weights of those kept are brought to a sum of one.
pub open spec fn skinned_vertex(influences: Seq<Influence>, uv: Point, color: Color, tag: VertexTag) -> Vertex {
    let i0 = kept_influence(influences, 0);
    let i1 = kept_influence(influences, 1);
    let i2 = kept_influence(influences, 2);
    let i3 = kept_influence(influences, 3);
    Vertex {
        positions: [i0.position, i1.position, i2.position, i3.position],
        weights: normalized([i0.weight, i1.weight, i2.weight, i3.weight]),
        bones: [i0.bone, i1.bone, i2.bone, i3.bone],
        color,
        uv,
        tag,
    }
}

/// Reads the influence that takes the place `k` of the vertex whose
/// `count` bones start at `at` and whose weighted points start at `used`.
fn read_kept(
    bones: &Vec<u32>,
    points: &Vec<WeightedPoint>,
    at: usize,
    used: usize,
    count: usize,
    k: usize,
) -> (influence: Influence)
    requires
        at + count <= bones.len(),
        used + count <= points.len(),
    ensures
        influence == kept_influence(
            influences_at(bones@, points@, at as int, used as int, count as int),
            k as int,
        ),
{
    if k < count {
        let point = points[used + k];
        Influence { bone: bones[at + k], position: point.position, weight: point.weight }
    } else {
        Influence { bone: 0, position: Point::origin(), weight: 0 }
    }
}

/// Builds the vertex whose `count` bones start at `at` and whose weighted
/// points start at `used`.
pub(crate) fn skin_vertex(
    bones: &Vec<u32>,
    points: &Vec<WeightedPoint>,
    at: usize,
    used: usize,
    count: usize,
    uv: Point,
    color: Color,
    tag: VertexTag,
) -> (v: Vertex)
    requires
        at + count <= bones.len(),
        used + count <= points.len(),
    ensures
        v == skinned_vertex(
            influences_at(bones@, points@, at as int, used as int, count as int),
            uv,
            color,
            tag,
        ),
{
    let i0 = read_kept(bones, points, at, used, count, 0);
    let i1 = read_kept(bones, points, at, used, count, 1);
    let i2 = read_kept(bones, points, at, used, count, 2);
    let i3 = read_kept(bones, points, at, used, count, 3);
    Vertex {
        positions: [i0.position, i1.position, i2.position, i3.position],
        weights: normalize([i0.weight, i1.weight, i2.weight, i3.weight]),
        bones: [i0.bone, i1.bone, i2.bone, i3.bone],
        color,
        uv,
        tag,
    }
}

} // verus!
