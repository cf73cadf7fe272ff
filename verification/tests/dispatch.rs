use gpu_skinning::attachment::{Attachment, RegionAttachment, SkeletonData, Skin};
use gpu_skinning::bake::bake;
use gpu_skinning::bake_model::BakeLimits;
use gpu_skinning::buffers::BakedBuffers;
use gpu_skinning::blend::{resolve, BlendMode};
use gpu_skinning::clipping_attachment::{AttachmentBase, ClippingAttachment};
use gpu_skinning::dispatch::{draw_frame, plan_draws, request_textures, DrawCall};
use gpu_skinning::geometry::{Color, Point, Scalar};
use gpu_skinning::pose::{Bone, Skeleton, Slot};
use gpu_skinning::texture::{FilterMode, TextureFormat, TextureRequest, TextureStore, TextureWrap};

fn bone(active: bool) -> Bone {
    let s = Scalar::one();
    Bone { active, a: s, b: s, c: s, d: s, world_x: s, world_y: s, parent: None }
}

fn slot(index: usize, bone: usize, attachment: Option<u32>, blend_mode: BlendMode) -> Slot {
    Slot { index, bone, attachment, blend_mode, deform: vec![] }
}

fn region(texture: u64) -> Attachment {
    let p = Point::origin();
    let s = Scalar::one();
    Attachment::Region(RegionAttachment {
        base: AttachmentBase { name: "r".to_string() },
        corners: [p, p, p, p],
        uvs: [p, p, p, p],
        color: Color { r: s, g: s, b: s, a: s },
        texture,
    })
}

/// Attachments 0, 1, 3 and 4 are regions on the pages 10, 11, 10 and 12;
/// attachment 2 is a clipping attachment.
fn baked() -> BakedBuffers {
    let clip = Attachment::Clipping(ClippingAttachment::new("c".to_string(), None));
    let data = SkeletonData {
        bone_count: 4,
        skins: vec![Skin { attachments: vec![region(10), region(11), clip, region(10), region(12)] }],
    };
    let limits = BakeLimits { max_vertices: 100, max_indices: 100, max_attachments: 100 };
    bake(&data, &limits).unwrap()
}

fn request(path: &str) -> TextureRequest {
    TextureRequest {
        path: path.to_string(),
        min_filter: FilterMode::Linear,
        mag_filter: FilterMode::Nearest,
        wrap_u: TextureWrap::Clamp,
        wrap_v: TextureWrap::Repeat,
        format: TextureFormat::RGBA8,
    }
}

/// The pages 10 and 11 are loaded as the textures 100 and 101; the page 12 is pending.
fn textures() -> TextureStore {
    let mut store = TextureStore::new();
    store.create(10, request("a.png"));
    store.create(11, request("b.png"));
    store.create(12, request("c.png"));
    assert!(store.complete_load(10, 100));
    assert!(store.complete_load(11, 101));
    store
}

fn call(position: usize, slot: usize, attachment: u32, mode: BlendMode, texture: u64, index_start: u32) -> DrawCall {
    DrawCall {
        position,
        slot,
        attachment,
        blend: resolve(mode, true),
        texture,
        index_start,
        index_count: 6,
    }
}

#[test]
fn slots_are_drawn_in_draw_order_not_in_index_order() {
    let skeleton = Skeleton {
        bones: vec![bone(true), bone(true)],
        draw_order: vec![
            slot(2, 0, Some(3), BlendMode::Normal),
            slot(0, 1, Some(1), BlendMode::Additive),
            slot(1, 0, Some(0), BlendMode::Screen),
        ],
        premultiplied_alpha: true,
    };
    let plan = draw_frame(&skeleton, &baked(), &mut textures());
    assert_eq!(
        plan.draws,
        vec![
            call(0, 2, 3, BlendMode::Normal, 100, 12),
            call(1, 0, 1, BlendMode::Additive, 101, 6),
            call(2, 1, 0, BlendMode::Screen, 100, 0),
        ]
    );
    assert!(plan.loads.is_empty());
    assert!(plan.deletions.is_empty());
}

#[test]
fn a_slot_on_an_inactive_bone_is_not_drawn() {
    let skeleton = Skeleton {
        bones: vec![bone(true), bone(false), bone(true)],
        draw_order: vec![
            slot(0, 2, Some(1), BlendMode::Normal),
            slot(1, 1, Some(0), BlendMode::Normal),
            slot(2, 0, Some(3), BlendMode::Multiply),
        ],
        premultiplied_alpha: true,
    };
    let plan = draw_frame(&skeleton, &baked(), &mut textures());
    assert_eq!(
        plan.draws,
        vec![call(0, 0, 1, BlendMode::Normal, 101, 6), call(2, 2, 3, BlendMode::Multiply, 100, 12)]
    );
}

#[test]
fn slots_that_show_nothing_to_draw_are_passed_over() {
    let skeleton = Skeleton {
        bones: vec![bone(true)],
        draw_order: vec![
            slot(0, 0, None, BlendMode::Normal),
            slot(1, 0, Some(2), BlendMode::Normal),
            slot(2, 0, Some(99), BlendMode::Normal),
            slot(3, 7, Some(0), BlendMode::Normal),
            slot(4, 0, Some(0), BlendMode::Normal),
        ],
        premultiplied_alpha: true,
    };
    let plan = draw_frame(&skeleton, &baked(), &mut textures());
    assert_eq!(plan.draws, vec![call(4, 4, 0, BlendMode::Normal, 100, 0)]);
}

#[test]
fn blend_states_follow_the_alpha_convention_of_the_skeleton() {
    let mut skeleton = Skeleton {
        bones: vec![bone(true)],
        draw_order: vec![slot(0, 0, Some(0), BlendMode::Additive)],
        premultiplied_alpha: false,
    };
    let store = textures();
    let straight = plan_draws(&skeleton, &baked(), &store);
    assert_eq!(straight[0].blend, resolve(BlendMode::Additive, false));
    skeleton.premultiplied_alpha = true;
    let premultiplied = plan_draws(&skeleton, &baked(), &store);
    assert_eq!(premultiplied[0].blend, resolve(BlendMode::Additive, true));
    assert_ne!(straight[0].blend, premultiplied[0].blend);
}

#[test]
fn a_pending_texture_is_asked_for_once_and_its_slot_waits() {
    let skeleton = Skeleton {
        bones: vec![bone(true)],
        draw_order: vec![
            slot(0, 0, Some(4), BlendMode::Normal),
            slot(1, 0, Some(0), BlendMode::Normal),
            slot(2, 0, Some(4), BlendMode::Normal),
        ],
        premultiplied_alpha: true,
    };
    let baked = baked();
    let mut store = textures();
    let first = draw_frame(&skeleton, &baked, &mut store);
    assert_eq!(first.loads, vec![12]);
    assert_eq!(first.draws, vec![call(1, 1, 0, BlendMode::Normal, 100, 0)]);
    let second = draw_frame(&skeleton, &baked, &mut store);
    assert!(second.loads.is_empty());
    assert_eq!(second.draws, first.draws);
    assert!(store.complete_load(12, 102));
    let third = draw_frame(&skeleton, &baked, &mut store);
    assert!(third.loads.is_empty());
    assert_eq!(
        third.draws,
        vec![
            call(0, 0, 4, BlendMode::Normal, 102, 18),
            call(1, 1, 0, BlendMode::Normal, 100, 0),
            call(2, 2, 4, BlendMode::Normal, 102, 18),
        ]
    );
}

#[test]
fn textures_are_not_asked_for_by_slots_that_are_not_drawn() {
    let skeleton = Skeleton {
        bones: vec![bone(false), bone(true)],
        draw_order: vec![slot(0, 0, Some(4), BlendMode::Normal), slot(1, 1, None, BlendMode::Normal)],
        premultiplied_alpha: true,
    };
    let mut store = textures();
    assert!(request_textures(&skeleton, &baked(), &mut store).is_empty());
    assert!(store.request(12));
}

#[test]
fn a_texture_that_never_loads_costs_only_its_own_slots() {
    let skeleton = Skeleton {
        bones: vec![bone(true)],
        draw_order: vec![
            slot(0, 0, Some(0), BlendMode::Normal),
            slot(1, 0, Some(4), BlendMode::Normal),
            slot(2, 0, Some(1), BlendMode::Normal),
        ],
        premultiplied_alpha: true,
    };
    let baked = baked();
    let mut store = textures();
    for _ in 0..3 {
        let plan = draw_frame(&skeleton, &baked, &mut store);
        assert_eq!(
            plan.draws,
            vec![call(0, 0, 0, BlendMode::Normal, 100, 0), call(2, 2, 1, BlendMode::Normal, 101, 6)]
        );
    }
}

#[test]
fn queued_textures_are_deleted_at_the_start_of_the_next_frame() {
    let skeleton = Skeleton {
        bones: vec![bone(true)],
        draw_order: vec![slot(0, 0, Some(0), BlendMode::Normal), slot(1, 0, Some(1), BlendMode::Normal)],
        premultiplied_alpha: true,
    };
    let baked = baked();
    let mut store = textures();
    let before = draw_frame(&skeleton, &baked, &mut store);
    assert_eq!(before.draws.len(), 2);
    assert!(before.deletions.is_empty());
    store.dispose(10);
    assert_eq!(store.delete_queue, vec![100]);
    let after = draw_frame(&skeleton, &baked, &mut store);
    assert_eq!(after.deletions, vec![100]);
    assert_eq!(after.draws, vec![call(1, 1, 1, BlendMode::Normal, 101, 6)]);
    assert!(store.delete_queue.is_empty());
    let later = draw_frame(&skeleton, &baked, &mut store);
    assert!(later.deletions.is_empty());
}

#[test]
fn every_draw_call_lies_within_the_index_buffer() {
    let skeleton = Skeleton {
        bones: vec![bone(true)],
        draw_order: (0..5u32)
            .rev()
            .map(|id| slot(id as usize, 0, Some(id), BlendMode::Normal))
            .collect(),
        premultiplied_alpha: false,
    };
    let baked = baked();
    let mut store = textures();
    store.complete_load(12, 102);
    let plan = draw_frame(&skeleton, &baked, &mut store);
    assert_eq!(plan.draws.len(), 4);
    let mut last = None;
    for call in plan.draws.iter() {
        assert!((call.index_start + call.index_count) as usize <= baked.indices.len());
        assert!(last < Some(call.position));
        last = Some(call.position);
    }
}
