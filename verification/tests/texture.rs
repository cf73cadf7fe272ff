use gpu_skinning::texture::{
    convert_filter, convert_format, convert_wrap, AtlasFilter, AtlasFormat, AtlasWrap, FilterMode,
    TextureEvent, TextureFormat, TextureRequest, TextureState, TextureStore, TextureWrap,
};

fn request(path: &str) -> TextureRequest {
    TextureRequest {
        path: path.to_string(),
        min_filter: FilterMode::Linear,
        mag_filter: FilterMode::Nearest,
        wrap_u: TextureWrap::Mirror,
        wrap_v: TextureWrap::Repeat,
        format: TextureFormat::RGB8,
    }
}

#[test]
fn known_filters_are_converted() {
    let linear = convert_filter(AtlasFilter::Linear);
    assert_eq!((linear.value, linear.unsupported), (FilterMode::Linear, false));
    let nearest = convert_filter(AtlasFilter::Nearest);
    assert_eq!((nearest.value, nearest.unsupported), (FilterMode::Nearest, false));
}

#[test]
fn other_filters_fall_back_to_linear() {
    for filter in [
        AtlasFilter::Unknown,
        AtlasFilter::Mipmap,
        AtlasFilter::MipmapNearestNearest,
        AtlasFilter::MipmapLinearNearest,
        AtlasFilter::MipmapNearestLinear,
        AtlasFilter::MipmapLinearLinear,
    ] {
        let converted = convert_filter(filter);
        assert_eq!((converted.value, converted.unsupported), (FilterMode::Linear, true));
    }
}

#[test]
fn wrap_modes_are_converted_or_fall_back_to_clamp() {
    let cases = [
        (AtlasWrap::ClampToEdge, TextureWrap::Clamp, false),
        (AtlasWrap::MirroredRepeat, TextureWrap::Mirror, false),
        (AtlasWrap::Repeat, TextureWrap::Repeat, false),
        (AtlasWrap::Unknown, TextureWrap::Clamp, true),
    ];
    for (wrap, value, unsupported) in cases {
        let converted = convert_wrap(wrap);
        assert_eq!((converted.value, converted.unsupported), (value, unsupported));
    }
}

#[test]
fn formats_are_converted_or_fall_back_to_rgba() {
    let cases = [
        (AtlasFormat::RGB888, TextureFormat::RGB8, false),
        (AtlasFormat::RGBA8888, TextureFormat::RGBA8, false),
        (AtlasFormat::Unknown, TextureFormat::RGBA8, true),
        (AtlasFormat::Alpha, TextureFormat::RGBA8, true),
        (AtlasFormat::Intensity, TextureFormat::RGBA8, true),
        (AtlasFormat::LuminanceAlpha, TextureFormat::RGBA8, true),
        (AtlasFormat::RGB565, TextureFormat::RGBA8, true),
        (AtlasFormat::RGBA4444, TextureFormat::RGBA8, true),
    ];
    for (format, value, unsupported) in cases {
        let converted = convert_format(format);
        assert_eq!((converted.value, converted.unsupported), (value, unsupported));
    }
}

#[test]
fn a_page_is_pending_until_its_texture_comes() {
    let mut store = TextureStore::new();
    assert_eq!(store.binding(1), None);
    store.create(1, request("page.png"));
    assert_eq!(store.binding(1), None);
    match store.states.get(&1) {
        Some(TextureState::Pending { request, requested }) => {
            assert_eq!(request.path, "page.png");
            assert_eq!(request.min_filter, FilterMode::Linear);
            assert_eq!(request.mag_filter, FilterMode::Nearest);
            assert_eq!(request.wrap_u, TextureWrap::Mirror);
            assert_eq!(request.wrap_v, TextureWrap::Repeat);
            assert_eq!(request.format, TextureFormat::RGB8);
            assert!(!*requested);
        }
        other => panic!("not pending: {other:?}"),
    }
    assert!(store.complete_load(1, 42));
    assert_eq!(store.binding(1), Some(42));
    assert!(store.delete_queue.is_empty());
}

#[test]
fn a_texture_is_asked_for_only_the_first_time() {
    let mut store = TextureStore::new();
    assert!(!store.request(1));
    store.create(1, request("page.png"));
    assert!(store.request(1));
    assert!(!store.request(1));
    match store.states.get(&1) {
        Some(TextureState::Pending { request, requested }) => {
            assert_eq!(request.path, "page.png");
            assert!(*requested);
        }
        other => panic!("not pending: {other:?}"),
    }
    assert!(store.complete_load(1, 42));
    assert!(!store.request(1));
    assert_eq!(store.binding(1), Some(42));
    assert_eq!(store.states.len(), 1);
}

#[test]
fn disposal_queues_the_texture_and_the_queue_is_drained_in_order() {
    let mut store = TextureStore::new();
    for page in 1..=3 {
        store.create(page, request("page.png"));
    }
    store.complete_load(1, 11);
    store.complete_load(3, 13);
    store.dispose(3);
    store.dispose(2);
    store.dispose(1);
    store.dispose(9);
    assert!(store.states.is_empty());
    assert_eq!(store.delete_queue, vec![13, 11]);
    assert_eq!(store.drain_deletions(), vec![13, 11]);
    assert!(store.delete_queue.is_empty());
    assert_eq!(store.drain_deletions(), Vec::<u64>::new());
    assert_eq!(store.binding(1), None);
}

#[test]
fn a_texture_that_comes_for_no_pending_page_is_queued() {
    let mut store = TextureStore::new();
    // the page was disposed of while its image was decoded
    store.create(1, request("page.png"));
    store.request(1);
    store.dispose(1);
    assert!(!store.complete_load(1, 42));
    assert_eq!(store.binding(1), None);
    assert_eq!(store.delete_queue, vec![42]);
    // the page has a texture already
    store.create(2, request("page.png"));
    assert!(store.complete_load(2, 43));
    assert!(!store.complete_load(2, 44));
    assert_eq!(store.binding(2), Some(43));
    assert_eq!(store.delete_queue, vec![42, 44]);
}

#[test]
fn registering_a_page_again_replaces_its_texture() {
    let mut store = TextureStore::new();
    store.create(1, request("old.png"));
    store.complete_load(1, 42);
    store.create(1, request("new.png"));
    assert_eq!(store.binding(1), None);
    assert_eq!(store.delete_queue, vec![42]);
    assert!(store.request(1));
    store.create(1, request("newer.png"));
    assert_eq!(store.delete_queue, vec![42]);
    assert!(store.request(1));
}

#[test]
fn events_are_applied_like_the_calls_they_stand_for() {
    let mut store = TextureStore::new();
    store.apply(TextureEvent::Created { page: 1, request: request("a.png") });
    store.apply(TextureEvent::Created { page: 2, request: request("b.png") });
    assert_eq!(store.binding(1), None);
    assert!(store.request(1));
    store.apply(TextureEvent::Loaded { page: 1, handle: 11 });
    assert_eq!(store.binding(1), Some(11));
    store.apply(TextureEvent::Disposed { page: 2 });
    store.apply(TextureEvent::Loaded { page: 2, handle: 12 });
    assert_eq!(store.binding(2), None);
    store.apply(TextureEvent::Created { page: 1, request: request("c.png") });
    store.apply(TextureEvent::Disposed { page: 1 });
    store.apply(TextureEvent::Disposed { page: 7 });
    assert!(store.states.is_empty());
    assert_eq!(store.drain_deletions(), vec![12, 11]);
}

#[test]
fn no_texture_is_both_bound_and_queued() {
    let mut store = TextureStore::new();
    let mut next_handle = 100;
    for round in 0..4u64 {
        for page in 0..6u64 {
            store.create(page, request("page.png"));
            if (page + round) % 2 == 0 {
                store.complete_load(page, next_handle);
                next_handle += 1;
            }
            if (page + round) % 3 == 0 {
                store.dispose(page);
            }
        }
        for page in 0..6u64 {
            if let Some(handle) = store.binding(page) {
                assert!(!store.delete_queue.contains(&handle));
            }
        }
    }
    assert!(!store.delete_queue.is_empty());
}
