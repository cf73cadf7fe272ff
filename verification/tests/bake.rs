use gpu_skinning::attachment::{
    Attachment, AttachmentKind, MeshAttachment, RegionAttachment, SkeletonData, Skin,
    WeightedMeshAttachment,
};
use gpu_skinning::bake::{bake, inspect, Footprint};
use gpu_skinning::bake_model::BakeLimits;
use gpu_skinning::buffers::{AttachmentMetadata, BakedBuffers};
use gpu_skinning::report::{BakeError, BakeFailure, BakeWarning, ParseStage, Table};
use gpu_skinning::clipping_attachment::{AttachmentBase, ClippingAttachment};
use gpu_skinning::geometry::{Color, Point, Scalar};
use gpu_skinning::influence::{Influence, WeightedPoint};
use gpu_skinning::vertex::VertexTag;
use gpu_skinning::weights::WEIGHT_ONE;

fn scalar(value: f32) -> Scalar {
    Scalar::from_bits(value.to_bits())
}

fn point(x: f32, y: f32) -> Point {
    Point { x: scalar(x), y: scalar(y) }
}

fn white() -> Color {
    Color { r: scalar(1.0), g: scalar(1.0), b: scalar(1.0), a: scalar(1.0) }
}

fn base(name: &str) -> AttachmentBase {
    AttachmentBase { name: name.to_string() }
}

fn region(name: &str, texture: u64) -> Attachment {
    Attachment::Region(RegionAttachment {
        base: base(name),
        corners: [point(-1.0, -1.0), point(-1.0, 1.0), point(1.0, 1.0), point(1.0, -1.0)],
        uvs: [point(0.0, 1.0), point(0.0, 0.0), point(1.0, 0.0), point(1.0, 1.0)],
        color: white(),
        texture,
    })
}

fn mesh(name: &str, vertices: usize, triangles: Vec<u32>) -> Attachment {
    Attachment::Mesh(MeshAttachment {
        base: base(name),
        positions: (0..vertices).map(|i| point(i as f32, 2.0 * i as f32)).collect(),
        uvs: vec![point(0.5, 0.25); vertices],
        triangles,
        color: white(),
        texture: 3,
    })
}

type Lists = (Vec<u32>, Vec<WeightedPoint>);

fn weighted(name: &str, lists: Lists, vertices: usize, triangles: Vec<u32>) -> Attachment {
    Attachment::WeightedMesh(WeightedMeshAttachment {
        base: base(name),
        bones: lists.0,
        points: lists.1,
        uvs: vec![point(0.5, 0.5); vertices],
        triangles,
        color: white(),
        texture: 4,
    })
}

fn clipping(name: &str) -> Attachment {
    Attachment::Clipping(ClippingAttachment::new(name.to_string(), Some(2)))
}

fn influence(bone: u32, x: f32, y: f32, weight: u32) -> Influence {
    Influence { bone, position: point(x, y), weight }
}

fn lists_of(vertices: &[&[Influence]]) -> Lists {
    let mut bones = Vec::new();
    let mut points = Vec::new();
    for vertex in vertices {
        bones.push(vertex.len() as u32);
        for influence in vertex.iter() {
            bones.push(influence.bone);
            points.push(WeightedPoint { position: influence.position, weight: influence.weight });
        }
    }
    (bones, points)
}

fn skeleton(skins: Vec<Vec<Attachment>>) -> SkeletonData {
    SkeletonData {
        bone_count: 8,
        skins: skins.into_iter().map(|attachments| Skin { attachments }).collect(),
    }
}

fn roomy() -> BakeLimits {
    BakeLimits { max_vertices: 10000, max_indices: 20000, max_attachments: 100 }
}

fn baked(skins: Vec<Vec<Attachment>>) -> BakedBuffers {
    bake(&skeleton(skins), &roomy()).expect("the bake succeeds")
}

fn failed(skins: Vec<Vec<Attachment>>, limits: BakeLimits) -> BakeError {
    bake(&skeleton(skins), &limits).expect_err("the bake fails")
}

fn weight_sum(weights: [u32; 4]) -> u64 {
    weights.iter().map(|w| *w as u64).sum()
}

#[test]
fn single_region_gives_four_vertices_and_six_indices() {
    let result = baked(vec![vec![region("head", 7)]]);
    assert_eq!(result.vertices.len(), 4);
    assert_eq!(result.indices, vec![0, 1, 2, 2, 3, 0]);
    assert_eq!(result.attachments.len(), 1);
    assert_eq!(result.attachments[0].index_count, 6);
    assert_eq!(
        result.attachments[0],
        AttachmentMetadata {
            attachment: 0,
            kind: AttachmentKind::Region,
            texture: 7,
            vertex_start: 0,
            vertex_count: 4,
            index_start: 0,
            index_count: 6,
            follows_slot: true,
        }
    );
    assert!(result.warnings.is_empty());
}

#[test]
fn region_vertices_carry_corners_and_full_weight() {
    let result = baked(vec![vec![region("head", 7)]]);
    let corners = [point(-1.0, -1.0), point(-1.0, 1.0), point(1.0, 1.0), point(1.0, -1.0)];
    let uvs = [point(0.0, 1.0), point(0.0, 0.0), point(1.0, 0.0), point(1.0, 1.0)];
    for j in 0..4 {
        let v = result.vertices[j];
        assert_eq!(v.positions, [corners[j], Point::origin(), Point::origin(), Point::origin()]);
        assert_eq!(v.weights, [WEIGHT_ONE, 0, 0, 0]);
        assert_eq!(v.bones, [0, 0, 0, 0]);
        assert_eq!(v.uv, uvs[j]);
        assert_eq!(v.color, white());
        assert_eq!(
            v.tag,
            VertexTag { attachment: 0, kind: AttachmentKind::Region, vertex: j as u32 }
        );
    }
}

#[test]
fn second_region_is_rebased_behind_the_first() {
    let result = baked(vec![vec![region("a", 1), region("b", 2)]]);
    assert_eq!(result.vertices.len(), 8);
    assert_eq!(result.indices, vec![0, 1, 2, 2, 3, 0, 4, 5, 6, 6, 7, 4]);
    assert_eq!(result.attachments[1].vertex_start, 4);
    assert_eq!(result.attachments[1].index_start, 6);
    assert_eq!(result.attachments[1].attachment, 1);
    assert_eq!(result.vertices[5].tag.attachment, 1);
    assert_eq!(result.vertices[5].tag.vertex, 1);
}

#[test]
fn mesh_triangles_are_copied_and_rebased() {
    let result = baked(vec![vec![region("a", 1), mesh("m", 5, vec![0, 1, 2, 2, 3, 4])]]);
    assert_eq!(result.vertices.len(), 9);
    assert_eq!(&result.indices[6..], &[4, 5, 6, 6, 7, 8]);
    let entry = result.attachments[1];
    assert_eq!(entry.kind, AttachmentKind::Mesh);
    assert_eq!((entry.vertex_start, entry.vertex_count), (4, 5));
    assert_eq!((entry.index_start, entry.index_count), (6, 6));
    assert!(entry.follows_slot);
    let v = result.vertices[4 + 3];
    assert_eq!(v.positions[0], point(3.0, 6.0));
    assert_eq!(v.uv, point(0.5, 0.25));
    assert_eq!(v.weights, [WEIGHT_ONE, 0, 0, 0]);
    assert_eq!(v.tag, VertexTag { attachment: 1, kind: AttachmentKind::Mesh, vertex: 3 });
}

#[test]
fn weighted_vertex_keeps_its_influences() {
    let lists = lists_of(&[&[influence(2, 1.0, 2.0, 600_000), influence(5, 3.0, 4.0, 400_000)]]);
    let result = baked(vec![vec![weighted("w", lists, 1, vec![0, 0, 0])]]);
    assert_eq!(result.vertices.len(), 1);
    let v = result.vertices[0];
    assert_eq!(v.positions, [point(1.0, 2.0), point(3.0, 4.0), Point::origin(), Point::origin()]);
    assert_eq!(v.weights, [600_000, 400_000, 0, 0]);
    assert_eq!(v.bones, [2, 5, 0, 0]);
    assert_eq!(v.tag, VertexTag { attachment: 0, kind: AttachmentKind::WeightedMesh, vertex: 0 });
    assert!(!result.attachments[0].follows_slot);
    assert!(result.warnings.is_empty());
}

#[test]
fn five_influences_are_cut_to_four_with_a_warning() {
    let each = influence(1, 1.0, 1.0, 200_000);
    let fifth = influence(7, 1.0, 1.0, 200_000);
    let lists = lists_of(&[
        &[influence(0, 0.0, 0.0, WEIGHT_ONE)],
        &[each, each, each, each, fifth],
    ]);
    let result = baked(vec![vec![weighted("w", lists, 2, vec![0, 1, 1])]]);
    assert_eq!(result.vertices.len(), 2);
    let v = result.vertices[1];
    assert_eq!(v.bones, [1, 1, 1, 1]);
    assert_eq!(v.weights, [250_000, 250_000, 250_000, 250_000]);
    assert_eq!(
        result.warnings,
        vec![BakeWarning::InfluencesTruncated { attachment: 0, vertex: 1, declared: 5 }]
    );
}

#[test]
fn weights_far_from_one_are_rescaled() {
    let lists = lists_of(&[&[influence(0, 0.0, 0.0, 500_000), influence(1, 0.0, 0.0, 300_000)]]);
    let result = baked(vec![vec![weighted("w", lists, 1, vec![])]]);
    assert_eq!(result.vertices[0].weights, [625_000, 375_000, 0, 0]);
}

#[test]
fn rescaled_weights_are_rounded_down() {
    let lists = lists_of(&[&[
        influence(0, 0.0, 0.0, 1),
        influence(1, 0.0, 0.0, 1),
        influence(2, 0.0, 0.0, 1),
    ]]);
    let result = baked(vec![vec![weighted("w", lists, 1, vec![])]]);
    assert_eq!(result.vertices[0].weights, [333_333, 333_333, 333_333, 0]);
}

#[test]
fn weights_near_one_are_stored_as_they_are() {
    let lists = lists_of(&[
        &[influence(0, 0.0, 0.0, 499_950), influence(1, 0.0, 0.0, 499_950)],
        &[influence(0, 0.0, 0.0, 500_050), influence(1, 0.0, 0.0, 500_050)],
    ]);
    let result = baked(vec![vec![weighted("w", lists, 2, vec![])]]);
    assert_eq!(result.vertices[0].weights, [499_950, 499_950, 0, 0]);
    assert_eq!(result.vertices[1].weights, [500_050, 500_050, 0, 0]);
}

#[test]
fn weights_just_outside_the_tolerance_are_rescaled() {
    let lists = lists_of(&[&[influence(0, 0.0, 0.0, 999_899)]]);
    let result = baked(vec![vec![weighted("w", lists, 1, vec![])]]);
    assert_eq!(result.vertices[0].weights, [WEIGHT_ONE, 0, 0, 0]);
}

#[test]
fn weights_of_zero_fall_to_the_first_influence() {
    let lists = lists_of(&[&[influence(3, 0.0, 0.0, 0), influence(4, 0.0, 0.0, 0)]]);
    let result = baked(vec![vec![weighted("w", lists, 1, vec![])]]);
    assert_eq!(result.vertices[0].weights, [WEIGHT_ONE, 0, 0, 0]);
    assert_eq!(result.vertices[0].bones, [3, 4, 0, 0]);
}

#[test]
fn every_vertex_has_weights_that_sum_to_one() {
    let lists = lists_of(&[
        &[influence(0, 0.0, 0.0, 123), influence(1, 0.0, 0.0, 456), influence(2, 0.0, 0.0, 789)],
        &[influence(0, 0.0, 0.0, u32::MAX), influence(1, 0.0, 0.0, u32::MAX)],
        &[influence(0, 0.0, 0.0, 7); 6],
    ]);
    let result = baked(vec![vec![
        region("r", 1),
        mesh("m", 3, vec![0, 1, 2]),
        weighted("w", lists, 3, vec![0, 1, 2]),
    ]]);
    assert_eq!(result.vertices.len(), 10);
    for v in result.vertices.iter() {
        let sum = weight_sum(v.weights);
        assert!(999_900 <= sum && sum <= 1_000_100, "sum {sum}");
    }
}

#[test]
fn clipping_attachments_are_passed_over() {
    let result = baked(vec![vec![clipping("clip"), region("a", 1), clipping("clip2")]]);
    assert_eq!(result.vertices.len(), 4);
    assert_eq!(result.indices.len(), 6);
    assert_eq!(result.attachments.len(), 1);
    assert_eq!(result.attachments[0].attachment, 1);
    assert_eq!(result.vertices[0].tag.attachment, 1);
    assert_eq!(result.find(0), None);
    assert_eq!(result.find(1), Some(0));
    assert_eq!(result.find(2), None);
}

#[test]
fn skins_are_baked_one_after_the_other() {
    let data = skeleton(vec![
        vec![region("a", 10), clipping("c")],
        vec![],
        vec![mesh("m", 3, vec![0, 1, 2]), region("b", 11)],
    ]);
    let result = bake(&data, &roomy()).unwrap();
    let ids: Vec<u32> = result.attachments.iter().map(|entry| entry.attachment).collect();
    assert_eq!(ids, vec![0, 2, 3]);
    let textures: Vec<u64> = result.attachments.iter().map(|entry| entry.texture).collect();
    assert_eq!(textures, vec![10, 3, 11]);
    assert_eq!(data.attachment_id(0, 0), Some(0));
    assert_eq!(data.attachment_id(0, 1), Some(1));
    assert_eq!(data.attachment_id(0, 2), None);
    assert_eq!(data.attachment_id(1, 0), None);
    assert_eq!(data.attachment_id(2, 0), Some(2));
    assert_eq!(data.attachment_id(2, 1), Some(3));
    assert_eq!(data.attachment_id(3, 0), None);
}

#[test]
fn index_ranges_divide_the_index_buffer() {
    let lists = lists_of(&[
        &[influence(0, 0.0, 0.0, WEIGHT_ONE)],
        &[influence(1, 0.0, 0.0, WEIGHT_ONE)],
        &[influence(2, 0.0, 0.0, WEIGHT_ONE)],
    ]);
    let result = baked(vec![
        vec![region("a", 1), mesh("m", 4, vec![0, 1, 2, 1, 2, 3]), clipping("c")],
        vec![weighted("w", lists, 3, vec![2, 1, 0]), mesh("empty", 0, vec![]), region("b", 2)],
    ]);
    let mut next_index = 0u32;
    let mut next_vertex = 0u32;
    for entry in result.attachments.iter() {
        assert_eq!(entry.index_start, next_index);
        assert_eq!(entry.vertex_start, next_vertex);
        next_index += entry.index_count;
        next_vertex += entry.vertex_count;
        let range = entry.index_start as usize..(entry.index_start + entry.index_count) as usize;
        for index in &result.indices[range] {
            assert!(entry.vertex_start <= *index && *index < entry.vertex_start + entry.vertex_count);
        }
    }
    assert_eq!(next_index as usize, result.indices.len());
    assert_eq!(next_vertex as usize, result.vertices.len());
    assert_eq!(result.indices.len(), 6 + 6 + 3 + 0 + 6);
    assert_eq!(result.vertices.len(), 4 + 4 + 3 + 0 + 4);
}

#[test]
fn baking_twice_gives_the_same_buffers() {
    let build = || {
        vec![vec![
            region("a", 1),
            mesh("m", 4, vec![0, 1, 2, 1, 2, 3]),
            weighted("w", lists_of(&[&[influence(1, 2.0, 3.0, 900_000)]]), 1, vec![0, 0, 0]),
        ]]
    };
    let first = baked(build());
    let second = baked(build());
    assert_eq!(first.vertices, second.vertices);
    assert_eq!(first.indices, second.indices);
    assert_eq!(first.attachments, second.attachments);
    assert_eq!(first.warnings, second.warnings);
}

#[test]
fn an_empty_skeleton_bakes_to_empty_buffers() {
    let result = baked(vec![]);
    assert!(result.vertices.is_empty());
    assert!(result.indices.is_empty());
    assert!(result.attachments.is_empty());
    let zero = BakeLimits { max_vertices: 0, max_indices: 0, max_attachments: 0 };
    assert!(bake(&skeleton(vec![vec![clipping("c")]]), &zero).is_ok());
}

#[test]
fn too_many_vertices_fail_at_the_attachment_that_brings_them() {
    let limits = BakeLimits { max_vertices: 7, max_indices: 100, max_attachments: 10 };
    let error = failed(vec![vec![region("a", 1)], vec![clipping("c"), region("b", 1)]], limits);
    assert_eq!(
        error,
        BakeError {
            skin: 1,
            entry: 1,
            failure: BakeFailure::CapacityExceeded { table: Table::Vertices },
        }
    );
    let exact = BakeLimits { max_vertices: 8, max_indices: 12, max_attachments: 3 };
    assert!(bake(&skeleton(vec![vec![region("a", 1)], vec![clipping("c"), region("b", 1)]]), &exact)
        .is_ok());
}

#[test]
fn too_many_indices_fail_at_the_attachment_that_brings_them() {
    let limits = BakeLimits { max_vertices: 100, max_indices: 11, max_attachments: 10 };
    let error = failed(vec![vec![region("a", 1), region("b", 1), region("c", 1)]], limits);
    assert_eq!(
        error,
        BakeError {
            skin: 0,
            entry: 1,
            failure: BakeFailure::CapacityExceeded { table: Table::Indices },
        }
    );
}

#[test]
fn too_many_attachments_fail_at_the_first_beyond_the_table() {
    let limits = BakeLimits { max_vertices: 100, max_indices: 100, max_attachments: 2 };
    let error = failed(vec![vec![region("a", 1), clipping("c"), clipping("d"), region("b", 1)]], limits);
    assert_eq!(
        error,
        BakeError {
            skin: 0,
            entry: 3,
            failure: BakeFailure::CapacityExceeded { table: Table::Attachments },
        }
    );
}

#[test]
fn a_triangle_outside_the_mesh_is_malformed() {
    let error = failed(vec![vec![region("a", 1), mesh("m", 3, vec![0, 1, 3])]], roomy());
    assert_eq!(
        error,
        BakeError {
            skin: 0,
            entry: 1,
            failure: BakeFailure::AssetLoadFailure { stage: ParseStage::Triangles },
        }
    );
}

#[test]
fn malformed_data_is_reported_before_capacity() {
    let limits = BakeLimits { max_vertices: 1, max_indices: 1, max_attachments: 0 };
    let error = failed(vec![vec![mesh("m", 3, vec![9])]], limits);
    assert_eq!(error.failure, BakeFailure::AssetLoadFailure { stage: ParseStage::Triangles });
}

#[test]
fn broken_influence_lists_are_malformed() {
    let influences_stage = BakeFailure::AssetLoadFailure { stage: ParseStage::Influences };
    // a vertex without influences
    let error = failed(vec![vec![weighted("w", (vec![0], vec![]), 0, vec![])]], roomy());
    assert_eq!(error.failure, influences_stage);
    // a vertex whose bones end early
    let mut lists = lists_of(&[&[influence(0, 0.0, 0.0, WEIGHT_ONE), influence(1, 0.0, 0.0, 0)]]);
    lists.0.pop();
    let error = failed(vec![vec![weighted("w", lists, 1, vec![])]], roomy());
    assert_eq!(error.failure, influences_stage);
    // an influence without a weighted point
    let mut lists = lists_of(&[&[influence(0, 0.0, 0.0, WEIGHT_ONE), influence(1, 0.0, 0.0, 0)]]);
    lists.1.pop();
    let error = failed(vec![vec![weighted("w", lists, 1, vec![])]], roomy());
    assert_eq!(error.failure, influences_stage);
    // a weighted point without an influence
    let mut lists = lists_of(&[&[influence(0, 0.0, 0.0, WEIGHT_ONE)]]);
    lists.1.push(WeightedPoint { position: point(0.0, 0.0), weight: 0 });
    let error = failed(vec![vec![weighted("w", lists, 1, vec![])]], roomy());
    assert_eq!(error.failure, influences_stage);
    // a bone that the skeleton does not have, even in an influence that is not kept
    let good = influence(0, 0.0, 0.0, 250_000);
    let lists = lists_of(&[&[good, good, good, good, influence(8, 0.0, 0.0, 0)]]);
    let error = failed(vec![vec![weighted("w", lists, 1, vec![])]], roomy());
    assert_eq!(error.failure, influences_stage);
    // a count beyond any list
    let lists = (vec![u32::MAX, 0], vec![WeightedPoint { position: point(0.0, 0.0), weight: 1 }]);
    let error = failed(vec![vec![weighted("w", lists, 1, vec![])]], roomy());
    assert_eq!(error.failure, influences_stage);
}

#[test]
fn mesh_texture_coordinates_must_match_the_vertices() {
    let mut attachment = mesh("m", 3, vec![0, 1, 2]);
    if let Attachment::Mesh(m) = &mut attachment {
        m.uvs.pop();
    }
    let error = failed(vec![vec![attachment]], roomy());
    assert_eq!(
        error.failure,
        BakeFailure::AssetLoadFailure { stage: ParseStage::TextureCoordinates }
    );
}

#[test]
fn texture_coordinates_must_match_the_vertices() {
    let lists = lists_of(&[&[influence(0, 0.0, 0.0, WEIGHT_ONE)]]);
    let error = failed(vec![vec![weighted("w", lists, 2, vec![])]], roomy());
    assert_eq!(
        error.failure,
        BakeFailure::AssetLoadFailure { stage: ParseStage::TextureCoordinates }
    );
}

#[test]
fn a_weighted_triangle_outside_the_mesh_is_malformed() {
    let lists = lists_of(&[&[influence(0, 0.0, 0.0, WEIGHT_ONE)]]);
    let error = failed(vec![vec![weighted("w", lists, 1, vec![0, 0, 1])]], roomy());
    assert_eq!(error.failure, BakeFailure::AssetLoadFailure { stage: ParseStage::Triangles });
}

#[test]
fn inspect_measures_without_baking() {
    assert_eq!(inspect(&region("a", 1), 1), Ok(Footprint { vertices: 4, indices: 6 }));
    assert_eq!(
        inspect(&mesh("m", 5, vec![0, 1, 4]), 1),
        Ok(Footprint { vertices: 5, indices: 3 })
    );
    assert_eq!(inspect(&clipping("c"), 1), Ok(Footprint { vertices: 0, indices: 0 }));
    let lists = lists_of(&[
        &[influence(0, 0.0, 0.0, 1), influence(1, 0.0, 0.0, 1)],
        &[influence(1, 0.0, 0.0, 1)],
    ]);
    assert_eq!(
        inspect(&weighted("w", lists.clone(), 2, vec![1, 0, 1, 0]), 2),
        Ok(Footprint { vertices: 2, indices: 4 })
    );
    assert_eq!(inspect(&weighted("w", lists, 2, vec![]), 1), Err(ParseStage::Influences));
}

#[test]
fn every_vertex_is_tagged_with_its_attachment_and_its_place() {
    let lists = lists_of(&[
        &[influence(0, 0.0, 0.0, WEIGHT_ONE)],
        &[influence(1, 0.0, 0.0, WEIGHT_ONE), influence(7, 0.0, 0.0, 5)],
    ]);
    let result = baked(vec![
        vec![clipping("c"), region("a", 1), mesh("m", 4, vec![0, 1, 2, 1, 2, 3])],
        vec![weighted("w", lists, 2, vec![0, 1, 1]), region("b", 2)],
    ]);
    let mut seen = 0;
    for entry in result.attachments.iter() {
        for place in 0..entry.vertex_count {
            let v = result.vertices[(entry.vertex_start + place) as usize];
            assert_eq!(
                v.tag,
                VertexTag { attachment: entry.attachment, kind: entry.kind, vertex: place }
            );
            if entry.kind == AttachmentKind::WeightedMesh {
                assert!(v.bones.iter().all(|bone| *bone < 8));
            }
            assert_eq!(entry.follows_slot, entry.kind != AttachmentKind::WeightedMesh);
            seen += 1;
        }
    }
    assert_eq!(seen, result.vertices.len());
    let kinds: Vec<AttachmentKind> = result.attachments.iter().map(|entry| entry.kind).collect();
    assert_eq!(
        kinds,
        vec![
            AttachmentKind::Region,
            AttachmentKind::Mesh,
            AttachmentKind::WeightedMesh,
            AttachmentKind::Region
        ]
    );
}
