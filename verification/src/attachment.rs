//! The attachments of a skeleton's skins, as the baker reads them.

use vstd::prelude::*;
use crate::clipping_attachment::{AttachmentBase, ClippingAttachment};
use crate::geometry::{Color, Point};
use crate::influence::WeightedPoint;

verus! {

/// The kinds of attachment. The first three are drawn.
#[derive(Clone, Copy, Debug, PartialEq, Eq, Structural)]
pub enum AttachmentKind {
    Region,
    Mesh,
    WeightedMesh,
    Clipping,
}

/// A textured quad that moves with the bone of its slot.
#[derive(Debug)]
pub struct RegionAttachment {
    pub base: AttachmentBase,
    /// The four corners, in the bone's local space.
    pub corners: [Point; 4],
    /// The texture coordinate of each corner.
    pub uvs: [Point; 4],
    pub color: Color,
    /// The atlas page that holds the image.
    pub texture: u64,
}

/// A triangle mesh that moves with the bone of its slot.
#[derive(Debug)]
pub struct MeshAttachment {
    pub base: AttachmentBase,
    /// The vertices, in the bone's local space.
    pub positions: Vec<Point>,
    /// One texture coordinate per vertex.
    pub uvs: Vec<Point>,
    /// Three vertex numbers per triangle.
    pub triangles: Vec<u32>,
    pub color: Color,
    pub texture: u64,
}

/// A triangle mesh each vertex of which follows several bones.
#[derive(Debug)]
pub struct WeightedMeshAttachment {
    pub base: AttachmentBase,
    /// For each vertex the number of its influences, then the index of the
    /// bone of each.
    pub bones: Vec<u32>,
    /// For each bone index of `bones`, in the same order, the vertex in the
    /// local space of that bone and the weight of the bone.
    pub points: Vec<WeightedPoint>,
    /// One texture coordinate per vertex.
    pub uvs: Vec<Point>,
    /// Three vertex numbers per triangle.
    pub triangles: Vec<u32>,
    pub color: Color,
    pub texture: u64,
}

/// An attachment of any kind.
#[derive(Debug)]
pub enum Attachment {
    Region(RegionAttachment),
    Mesh(MeshAttachment),
    WeightedMesh(WeightedMeshAttachment),
    Clipping(ClippingAttachment),
}

impl Attachment {
    /// The kind of the attachment.
    pub open spec fn kind_spec(&self) -> AttachmentKind {
        match self {
            Attachment::Region(_) => AttachmentKind::Region,
            Attachment::Mesh(_) => AttachmentKind::Mesh,
            Attachment::WeightedMesh(_) => AttachmentKind::WeightedMesh,
            Attachment::Clipping(_) => AttachmentKind::Clipping,
        }
    }

    /// The kind of the attachment.
    #[verifier::when_used_as_spec(kind_spec)]
    pub fn kind(&self) -> (kind: AttachmentKind)
        ensures
            kind == self.kind_spec(),
    {
        match self {
            Attachment::Region(_) => AttachmentKind::Region,
            Attachment::Mesh(_) => AttachmentKind::Mesh,
            Attachment::WeightedMesh(_) => AttachmentKind::WeightedMesh,
            Attachment::Clipping(_) => AttachmentKind::Clipping,
        }
    }

    /// The atlas page of a drawn attachment; 0 for a clipping attachment,
    /// which has no image.
    pub open spec fn texture_spec(&self) -> u64 {
        match self {
            Attachment::Region(r) => r.texture,
            Attachment::Mesh(m) => m.texture,
            Attachment::WeightedMesh(w) => w.texture,
            Attachment::Clipping(_) => 0,
        }
    }

    /// The atlas page of a drawn attachment; 0 for a clipping attachment.
    #[verifier::when_used_as_spec(texture_spec)]
    pub fn texture(&self) -> (page: u64)
        ensures
            page == self.texture_spec(),
    {
        match self {
            Attachment::Region(r) => r.texture,
            Attachment::Mesh(m) => m.texture,
            Attachment::WeightedMesh(w) => w.texture,
            Attachment::Clipping(_) => 0,
        }
    }
}

/// The attachments of one skin, in the order in which the skin lists them.
#[derive(Debug)]
pub struct Skin {
    pub attachments: Vec<Attachment>,
}

/// What the baker needs of a loaded skeleton.
#[derive(Debug)]
pub struct SkeletonData {
    /// The number of bones: a weighted mesh may name bones below it.
    pub bone_count: u32,
    pub skins: Vec<Skin>,
}

/// The attachments of the first `count` skins, skin after skin, each skin's
/// in the order in which it lists them.
pub open spec fn attachments_of(skins: Seq<Skin>, count: int) -> Seq<Attachment>
    decreases count,
{
    if count <= 0 {
        Seq::empty()
    } else {
        attachments_of(skins, count - 1) + skins[count - 1].attachments@
    }
}

impl SkeletonData {
    /// Every attachment of the skeleton, in the order in which it is baked.
    /// An attachment is known to the rest of the pipeline by its place in
    /// this sequence.
    pub open spec fn attachments(&self) -> Seq<Attachment> {
        attachments_of(self.skins@, self.skins@.len() as int)
    }
}

/// The attachments of the first skins are the start of those of more skins.
pub proof fn lemma_attachments_of_prefix(skins: Seq<Skin>, few: int, many: int)
    requires
        0 <= few <= many <= skins.len(),
    ensures
        attachments_of(skins, few).len() <= attachments_of(skins, many).len(),
        attachments_of(skins, many).take(attachments_of(skins, few).len() as int)
            == attachments_of(skins, few),
    decreases many - few,
{
    if few < many {
        lemma_attachments_of_prefix(skins, few, many - 1);
        let shorter = attachments_of(skins, many - 1);
        let longer = attachments_of(skins, many);
        let n = attachments_of(skins, few).len() as int;
        assert(longer.take(n) =~= shorter.take(n));
    } else {
        assert(attachments_of(skins, many).take(attachments_of(skins, few).len() as int)
            =~= attachments_of(skins, few));
    }
}

/// Where the attachment `entry` of the skin `skin` stands among all.
pub proof fn lemma_attachments_of_entry(skins: Seq<Skin>, skin: int, entry: int)
    requires
        0 <= skin < skins.len(),
        0 <= entry < skins[skin].attachments@.len(),
    ensures
        ({
            let all = attachments_of(skins, skins.len() as int);
            let before = attachments_of(skins, skin).len();
            &&& before + entry < all.len()
            &&& all[before + entry] == skins[skin].attachments@[entry]
        }),
{
    lemma_attachments_of_prefix(skins, skin + 1, skins.len() as int);
    let all = attachments_of(skins, skins.len() as int);
    let upto = attachments_of(skins, skin + 1);
    let before = attachments_of(skins, skin).len();
    assert(upto[before + entry] == skins[skin].attachments@[entry]);
    assert(all.take(upto.len() as int)[before + entry] == all[before + entry]);
}

impl SkeletonData {
    /// The place of an attachment among all, from its skin and its place in
    /// that skin. `None` if there is no such attachment, or if its place is
    /// beyond what 32 bits can number.
    pub fn attachment_id(&self, skin: usize, entry: usize) -> (id: Option<u32>)
        ensures
            id is Some <==> {
                &&& skin < self.skins@.len()
                &&& entry < self.skins@[skin as int].attachments@.len()
                &&& attachments_of(self.skins@, skin as int).len() + entry <= u32::MAX
            },
            id matches Some(n) ==> {
                &&& n == attachments_of(self.skins@, skin as int).len() + entry
                &&& n < self.attachments().len()
                &&& self.attachments()[n as int] == self.skins@[skin as int].attachments@[entry as int]
            },
    {
        if skin >= self.skins.len() || entry >= self.skins[skin].attachments.len() {
            return None;
        }
        if entry > u32::MAX as usize {
            return None;
        }
        let mut before: u32 = 0;
        let mut s: usize = 0;
        proof {
            lemma_attachments_of_entry(self.skins@, skin as int, entry as int);
        }
        while s < skin
            invariant
                s <= skin < self.skins@.len(),
                before == attachments_of(self.skins@, s as int).len(),
            decreases skin - s,
        {
            proof {
                lemma_attachments_of_prefix(self.skins@, s as int + 1, skin as int);
            }
            let more = self.skins[s].attachments.len();
            if more > (u32::MAX - before) as usize {
                return None;
            }
            before = before + more as u32;
            s = s + 1;
        }
        if entry as u32 > u32::MAX - before {
            return None;
        }
        Some(before + entry as u32)
    }
}

} // verus!
