//! The textures of the atlas pages, from the request to load one until its
//! deletion.
//!
//! The store decides; it neither decodes nor uploads. A page is registered
//! with the parameters of its texture and is pending from then on. It is
//! loaded once whoever decodes images hands over a texture for it. When the
//! page is disposed of, its texture is not deleted at once but queued, and
//! the queue is emptied at the start of the next draw pass: a texture that
//! the frame before may still have bound is never deleted under it.

use std::collections::HashMap;
use vstd::prelude::*;

verus! {

broadcast use vstd::std_specs::hash::group_hash_axioms;

/// How an atlas says that a page is to be filtered.
#[derive(Clone, Copy, Debug, PartialEq, Eq, Structural)]
pub enum AtlasFilter {
    Unknown,
    Nearest,
    Linear,
    Mipmap,
    MipmapNearestNearest,
    MipmapLinearNearest,
    MipmapNearestLinear,
    MipmapLinearLinear,
}

/// How an atlas says that a page is to be continued beyond its edges.
#[derive(Clone, Copy, Debug, PartialEq, Eq, Structural)]
pub enum AtlasWrap {
    Unknown,
    MirroredRepeat,
    ClampToEdge,
    Repeat,
}

/// How an atlas says that the pixels of a page are stored.
#[derive(Clone, Copy, Debug, PartialEq, Eq, Structural)]
pub enum AtlasFormat {
    Unknown,
    Alpha,
    Intensity,
    LuminanceAlpha,
    RGB565,
    RGBA4444,
    RGB888,
    RGBA8888,
}

/// The filters that textures are made with.
#[derive(Clone, Copy, Debug, PartialEq, Eq, Structural)]
pub enum FilterMode {
    Linear,
    Nearest,
}

/// The wrap modes that textures are made with.
#[derive(Clone, Copy, Debug, PartialEq, Eq, Structural)]
pub enum TextureWrap {
    Repeat,
    Mirror,
    Clamp,
}

/// The pixel formats that textures are made with.
#[derive(Clone, Copy, Debug, PartialEq, Eq, Structural)]
pub enum TextureFormat {
    RGB8,
    RGBA8,
}

/// A texture parameter, and whether it is the default that was taken
/// because the atlas asked for something that textures are not made with.
/// That is no error; the caller may log it.
#[derive(Debug)]
pub struct Converted<T> {
    pub value: T,
    pub unsupported: bool,
}

/// The filter for an atlas filter, if textures are made with it.
pub open spec fn filter_of(filter: AtlasFilter) -> Option<FilterMode> {
    match filter {
        AtlasFilter::Linear => Some(FilterMode::Linear),
        AtlasFilter::Nearest => Some(FilterMode::Nearest),
        _ => None,
    }
}

/// The wrap mode for an atlas wrap mode, if textures are made with it.
pub open spec fn wrap_of(wrap: AtlasWrap) -> Option<TextureWrap> {
    match wrap {
        AtlasWrap::ClampToEdge => Some(TextureWrap::Clamp),
        AtlasWrap::MirroredRepeat => Some(TextureWrap::Mirror),
        AtlasWrap::Repeat => Some(TextureWrap::Repeat),
        AtlasWrap::Unknown => None,
    }
}

/// The pixel format for an atlas format, if textures are made with it.
pub open spec fn format_of(format: AtlasFormat) -> Option<TextureFormat> {
    match format {
        AtlasFormat::RGB888 => Some(TextureFormat::RGB8),
        AtlasFormat::RGBA8888 => Some(TextureFormat::RGBA8),
        _ => None,
    }
}

/// Converts a filter; linear filtering is the default.
pub fn convert_filter(filter: AtlasFilter) -> (converted: Converted<FilterMode>)
    ensures
        converted.value == match filter_of(filter) {
            Some(mode) => mode,
            None => FilterMode::Linear,
        },
        converted.unsupported == (filter_of(filter) is None),
{
    match filter {
        AtlasFilter::Linear => Converted { value: FilterMode::Linear, unsupported: false },
        AtlasFilter::Nearest => Converted { value: FilterMode::Nearest, unsupported: false },
        _ => Converted { value: FilterMode::Linear, unsupported: true },
    }
}

/// Converts a wrap mode; clamping is the default.
pub fn convert_wrap(wrap: AtlasWrap) -> (converted: Converted<TextureWrap>)
    ensures
        converted.value == match wrap_of(wrap) {
            Some(mode) => mode,
            None => TextureWrap::Clamp,
        },
        converted.unsupported == (wrap_of(wrap) is None),
{
    match wrap {
        AtlasWrap::ClampToEdge => Converted { value: TextureWrap::Clamp, unsupported: false },
        AtlasWrap::MirroredRepeat => Converted { value: TextureWrap::Mirror, unsupported: false },
        AtlasWrap::Repeat => Converted { value: TextureWrap::Repeat, unsupported: false },
        AtlasWrap::Unknown => Converted { value: TextureWrap::Clamp, unsupported: true },
    }
}

/// Converts a pixel format; RGBA with 8 bits each is the default.
pub fn convert_format(format: AtlasFormat) -> (converted: Converted<TextureFormat>)
    ensures
        converted.value == match format_of(format) {
            Some(f) => f,
            None => TextureFormat::RGBA8,
        },
        converted.unsupported == (format_of(format) is None),
{
    match format {
        AtlasFormat::RGB888 => Converted { value: TextureFormat::RGB8, unsupported: false },
        AtlasFormat::RGBA8888 => Converted { value: TextureFormat::RGBA8, unsupported: false },
        _ => Converted { value: TextureFormat::RGBA8, unsupported: true },
    }
}

/// What it takes to make the texture of an atlas page.
#[derive(Debug)]
pub struct TextureRequest {
    /// Where the image is.
    pub path: String,
    pub min_filter: FilterMode,
    pub mag_filter: FilterMode,
    pub wrap_u: TextureWrap,
    pub wrap_v: TextureWrap,
    pub format: TextureFormat,
}

/// The state of the texture of an atlas page.
#[derive(Debug)]
pub enum TextureState {
    /// There is no texture yet. `requested` says whether a draw pass has
    /// asked for it to be loaded.
    Pending { request: TextureRequest, requested: bool },
    /// The texture is there.
    Loaded { handle: u64 },
}

/// What whoever loads atlases and decodes images tells the store. The
/// events of the time since the last frame are applied, in the order in
/// which they came, when the next frame starts and not in the middle of a
/// draw pass.
#[derive(Debug)]
pub enum TextureEvent {
    /// An atlas page was loaded; its texture is to be made from `request`.
    Created { page: u64, request: TextureRequest },
    /// The image of a page was decoded and uploaded as the texture `handle`.
    Loaded { page: u64, handle: u64 },
    /// An atlas page was disposed of.
    Disposed { page: u64 },
}

/// The textures of all atlas pages, by the identity of the page, and the
/// textures that wait to be deleted.
#[derive(Debug)]
pub struct TextureStore {
    pub states: HashMap<u64, TextureState>,
    pub delete_queue: Vec<u64>,
}

/// Whether the page has a texture that can be bound.
pub open spec fn is_loaded(states: Map<u64, TextureState>, page: u64) -> bool {
    states.contains_key(page) && states[page] is Loaded
}

/// Whether the page waits for a texture that nobody has asked for yet.
pub open spec fn is_unrequested(states: Map<u64, TextureState>, page: u64) -> bool {
    states.contains_key(page) && states[page] is Pending && !states[page]->requested
}

/// The states once the texture of the page has been asked for.
pub open spec fn with_request(states: Map<u64, TextureState>, page: u64) -> Map<u64, TextureState> {
    if is_unrequested(states, page) {
        states.insert(
            page,
            TextureState::Pending { request: states[page]->request, requested: true },
        )
    } else {
        states
    }
}

/// The queue once the texture of the page, if it has one, is queued.
pub open spec fn with_texture_queued(queue: Seq<u64>, states: Map<u64, TextureState>, page: u64) -> Seq<
    u64,
> {
    if is_loaded(states, page) {
        queue.push(states[page]->handle)
    } else {
        queue
    }
}

/// The states of the pages after an event.
pub open spec fn states_after(states: Map<u64, TextureState>, event: TextureEvent) -> Map<
    u64,
    TextureState,
> {
    match event {
        TextureEvent::Created { page, request } => states.insert(
            page,
            TextureState::Pending { request, requested: false },
        ),
        TextureEvent::Loaded { page, handle } => if states.contains_key(page) && states[page] is Pending {
            states.insert(page, TextureState::Loaded { handle })
        } else {
            states
        },
        TextureEvent::Disposed { page } => states.remove(page),
    }
}

/// The textures that wait to be deleted after an event: a page that is
/// registered again or disposed of gives up its texture, and a texture that
/// comes for a page that is not pending is given up at once.
pub open spec fn queue_after(queue: Seq<u64>, states: Map<u64, TextureState>, event: TextureEvent) -> Seq<
    u64,
> {
    match event {
        TextureEvent::Created { page, .. } => with_texture_queued(queue, states, page),
        TextureEvent::Loaded { page, handle } => if states.contains_key(page) && states[page] is Pending {
            queue
        } else {
            queue.push(handle)
        },
        TextureEvent::Disposed { page } => with_texture_queued(queue, states, page),
    }
}

/// Whether a page or the queue holds the texture.
pub open spec fn is_held(states: Map<u64, TextureState>, queue: Seq<u64>, handle: u64) -> bool {
    ||| exists|page: u64| #[trigger] is_loaded(states, page) && states[page]->handle == handle
    ||| exists|i: int| 0 <= i < queue.len() && #[trigger] queue[i] == handle
}

/// Whether every texture is held once: no two pages have the same texture,
/// and no texture that waits to be deleted is the texture of a page.
pub open spec fn held_once(states: Map<u64, TextureState>, queue: Seq<u64>) -> bool {
    &&& forall|p: u64, q: u64|
        #[trigger] is_loaded(states, p) && #[trigger] is_loaded(states, q) && p != q
            ==> states[p]->handle != states[q]->handle
    &&& forall|p: u64, i: int|
        #[trigger] is_loaded(states, p) && 0 <= i < queue.len() ==> states[p]->handle
            != #[trigger] queue[i]
}

impl TextureStore {
    /// Whether every texture is held once. A store stays so as long as
    /// every texture that is handed to it is a new one.
    pub open spec fn wf(&self) -> bool {
        held_once(self.states@, self.delete_queue@)
    }

    /// A store without pages.
    pub fn new() -> (store: TextureStore)
        ensures
            store.states@ == Map::<u64, TextureState>::empty(),
            store.delete_queue@ == Seq::<u64>::empty(),
            store.wf(),
    {
        TextureStore { states: HashMap::new(), delete_queue: Vec::new() }
    }

    /// Registers an atlas page. Its texture is pending. If the page was
    /// registered before and has a texture, that texture is queued for
    /// deletion.
    pub fn create(&mut self, page: u64, request: TextureRequest)
        ensures
            final(self).states@ == old(self).states@.insert(
                page,
                TextureState::Pending { request, requested: false },
            ),
            final(self).delete_queue@ == with_texture_queued(
                old(self).delete_queue@,
                old(self).states@,
                page,
            ),
            old(self).wf() ==> final(self).wf(),
    {
        proof {
            if old(self).wf() {
                lemma_held_once_replaced(
                    old(self).states@,
                    old(self).delete_queue@,
                    page,
                    TextureState::Pending { request, requested: false },
                );
            }
        }
        let previous = self.states.insert(page, TextureState::Pending { request, requested: false });
        if let Some(TextureState::Loaded { handle }) = previous {
            self.delete_queue.push(handle);
        }
    }

    /// The texture of a page, if it is loaded.
    pub fn binding(&self, page: u64) -> (handle: Option<u64>)
        ensures
            match handle {
                Some(h) => is_loaded(self.states@, page) && h == self.states@[page]->handle,
                None => !is_loaded(self.states@, page),
            },
    {
        match self.states.get(&page) {
            Some(TextureState::Loaded { handle }) => Some(*handle),
            _ => None,
        }
    }

    /// Asks for the texture of a page. Says whether it has to be loaded
    /// now: the page waits for a texture and this is the first time that
    /// it is asked for.
    pub fn request(&mut self, page: u64) -> (load: bool)
        ensures
            load == is_unrequested(old(self).states@, page),
            final(self).states@ == with_request(old(self).states@, page),
            final(self).delete_queue@ == old(self).delete_queue@,
            old(self).wf() ==> final(self).wf(),
    {
        let unrequested = match self.states.get(&page) {
            Some(TextureState::Pending { requested, .. }) => !*requested,
            _ => false,
        };
        if !unrequested {
            return false;
        }
        if let Some(TextureState::Pending { request, .. }) = self.states.remove(&page) {
            self.states.insert(page, TextureState::Pending { request, requested: true });
        }
        proof {
            assert(self.states@ == with_request(old(self).states@, page));
            lemma_request_keeps_loaded(old(self).states@, page);
        }
        true
    }

    /// Takes the texture that was loaded for a page. Says whether the page
    /// took it. A page that is not pending takes none: it was disposed of
    /// while its image was decoded, or it has a texture already. The
    /// texture that came is then queued for deletion.
    pub fn complete_load(&mut self, page: u64, handle: u64) -> (taken: bool)
        ensures
            taken == (old(self).states@.contains_key(page) && old(self).states@[page] is Pending),
            taken ==> final(self).states@ == old(self).states@.insert(
                page,
                TextureState::Loaded { handle },
            ) && final(self).delete_queue@ == old(self).delete_queue@,
            !taken ==> final(self).states@ == old(self).states@ && final(self).delete_queue@ == old(
                self,
            ).delete_queue@.push(handle),
            old(self).wf() && !is_held(old(self).states@, old(self).delete_queue@, handle)
                ==> final(self).wf(),
    {
        let pending = match self.states.get(&page) {
            Some(TextureState::Pending { .. }) => true,
            _ => false,
        };
        proof {
            if old(self).wf() && !is_held(old(self).states@, old(self).delete_queue@, handle) {
                lemma_held_once_taken(old(self).states@, old(self).delete_queue@, page, handle);
            }
        }
        if pending {
            self.states.insert(page, TextureState::Loaded { handle });
            true
        } else {
            self.delete_queue.push(handle);
            false
        }
    }

    /// Forgets a page. Its texture, if it has one, is queued for deletion.
    pub fn dispose(&mut self, page: u64)
        ensures
            final(self).states@ == old(self).states@.remove(page),
            final(self).delete_queue@ == with_texture_queued(
                old(self).delete_queue@,
                old(self).states@,
                page,
            ),
            old(self).wf() ==> final(self).wf(),
    {
        proof {
            if old(self).wf() {
                lemma_held_once_removed(old(self).states@, old(self).delete_queue@, page);
            }
        }
        let previous = self.states.remove(&page);
        if let Some(TextureState::Loaded { handle }) = previous {
            self.delete_queue.push(handle);
        }
    }

    /// Applies one event.
    pub fn apply(&mut self, event: TextureEvent)
        ensures
            final(self).states@ == states_after(old(self).states@, event),
            final(self).delete_queue@ == queue_after(old(self).delete_queue@, old(self).states@, event),
            old(self).wf() && !(event matches TextureEvent::Loaded { handle, .. } && is_held(
                old(self).states@,
                old(self).delete_queue@,
                handle,
            )) ==> final(self).wf(),
    {
        match event {
            TextureEvent::Created { page, request } => {
                self.create(page, request);
            },
            TextureEvent::Loaded { page, handle } => {
                self.complete_load(page, handle);
            },
            TextureEvent::Disposed { page } => {
                self.dispose(page);
            },
        }
    }

    /// Empties the queue: hands out the textures to delete, oldest first.
    pub fn drain_deletions(&mut self) -> (handles: Vec<u64>)
        ensures
            handles@ == old(self).delete_queue@,
            final(self).delete_queue@ == Seq::<u64>::empty(),
            final(self).states@ == old(self).states@,
            old(self).wf() ==> final(self).wf(),
    {
        let mut handles: Vec<u64> = Vec::new();
        handles.append(&mut self.delete_queue);
        handles
    }
}

/// Asking for a texture loads none and unloads none.
pub proof fn lemma_request_keeps_loaded(states: Map<u64, TextureState>, page: u64)
    ensures
        forall|other: u64|
            #[trigger] is_loaded(with_request(states, page), other) == is_loaded(states, other),
        forall|other: u64|
            is_loaded(states, other) ==> #[trigger] with_request(states, page)[other] == states[other],
{
}

/// A page that gives up its texture to the queue leaves every texture
/// held once, whatever state without a texture the page takes.
pub proof fn lemma_held_once_replaced(
    states: Map<u64, TextureState>,
    queue: Seq<u64>,
    page: u64,
    state: TextureState,
)
    requires
        held_once(states, queue),
        state is Pending,
    ensures
        held_once(states.insert(page, state), with_texture_queued(queue, states, page)),
{
    let after = states.insert(page, state);
    let queued = with_texture_queued(queue, states, page);
    assert forall|p: u64, q: u64|
        #[trigger] is_loaded(after, p) && #[trigger] is_loaded(after, q) && p != q implies after[p]->handle
        != after[q]->handle by {
        assert(is_loaded(states, p) && is_loaded(states, q));
    }
    assert forall|p: u64, i: int| #[trigger]
        is_loaded(after, p) && 0 <= i < queued.len() implies after[p]->handle != #[trigger] queued[i] by {
        assert(is_loaded(states, p));
        if i < queue.len() {
            assert(queued[i] == queue[i]);
        } else {
            assert(is_loaded(states, page));
        }
    }
}

/// A page that is forgotten and gives up its texture to the queue leaves
/// every texture held once.
pub proof fn lemma_held_once_removed(states: Map<u64, TextureState>, queue: Seq<u64>, page: u64)
    requires
        held_once(states, queue),
    ensures
        held_once(states.remove(page), with_texture_queued(queue, states, page)),
{
    let after = states.remove(page);
    let queued = with_texture_queued(queue, states, page);
    assert forall|p: u64, q: u64|
        #[trigger] is_loaded(after, p) && #[trigger] is_loaded(after, q) && p != q implies after[p]->handle
        != after[q]->handle by {
        assert(is_loaded(states, p) && is_loaded(states, q));
    }
    assert forall|p: u64, i: int| #[trigger]
        is_loaded(after, p) && 0 <= i < queued.len() implies after[p]->handle != #[trigger] queued[i] by {
        assert(is_loaded(states, p));
        if i < queue.len() {
            assert(queued[i] == queue[i]);
        } else {
            assert(is_loaded(states, page));
        }
    }
}

/// A texture that nothing holds yet is held once wherever it goes: to the
/// page, or to the queue.
pub proof fn lemma_held_once_taken(
    states: Map<u64, TextureState>,
    queue: Seq<u64>,
    page: u64,
    handle: u64,
)
    requires
        held_once(states, queue),
        !is_held(states, queue, handle),
    ensures
        !is_loaded(states, page) ==> held_once(
            states.insert(page, TextureState::Loaded { handle }),
            queue,
        ),
        held_once(states, queue.push(handle)),
{
    let after = states.insert(page, TextureState::Loaded { handle });
    if !is_loaded(states, page) {
        assert forall|p: u64, q: u64|
            #[trigger] is_loaded(after, p) && #[trigger] is_loaded(after, q) && p != q implies after[p]->handle
            != after[q]->handle by {
            if p != page {
                assert(is_loaded(states, p));
            }
            if q != page {
                assert(is_loaded(states, q));
            }
        }
        assert forall|p: u64, i: int| #[trigger]
            is_loaded(after, p) && 0 <= i < queue.len() implies after[p]->handle != #[trigger] queue[i] by {
            if p != page {
                assert(is_loaded(states, p));
            }
        }
    }
    let longer = queue.push(handle);
    assert forall|p: u64, i: int| #[trigger]
        is_loaded(states, p) && 0 <= i < longer.len() implies states[p]->handle != #[trigger] longer[i] by {
        if i < queue.len() {
            assert(longer[i] == queue[i]);
        }
    }
}

} // verus!
