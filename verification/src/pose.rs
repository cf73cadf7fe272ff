//! The pose of a skeleton at one frame, as the animation engine hands it
//! over. The pipeline only reads it.

use vstd::prelude::*;
use crate::blend::BlendMode;
use crate::geometry::{Matrix4, Scalar};

verus! {

/// A bone of the posed skeleton. Its index is its place in `Skeleton::bones`.
#[derive(Clone, Copy, Debug, PartialEq, Eq, Structural)]
pub struct Bone {
    /// Whether the current skin uses the bone.
    pub active: bool,
    /// The world transform `(x, y) -> (a*x + b*y + world_x, c*x + d*y + world_y)`.
    pub a: Scalar,
    pub b: Scalar,
    pub c: Scalar,
    pub d: Scalar,
    pub world_x: Scalar,
    pub world_y: Scalar,
    /// The index of the parent bone; `None` for a root.
    pub parent: Option<usize>,
}

impl Bone {
    /// The matrix that the bone has in the bone table: its world transform,
    /// or the identity where the bone is not active.
    pub open spec fn matrix_spec(&self) -> Matrix4 {
        if self.active {
            Matrix4::from_affine_spec(self.a, self.b, self.c, self.d, self.world_x, self.world_y)
        } else {
            Matrix4::identity_spec()
        }
    }

    /// The matrix that the bone has in the bone table.
    #[verifier::when_used_as_spec(matrix_spec)]
    pub fn matrix(&self) -> (m: Matrix4)
        ensures
            m == self.matrix_spec(),
    {
        if self.active {
            Matrix4::from_affine(self.a, self.b, self.c, self.d, self.world_x, self.world_y)
        } else {
            Matrix4::identity()
        }
    }
}

/// A slot of the posed skeleton.
#[derive(Debug)]
pub struct Slot {
    /// The slot's index. It does not change when the draw order does.
    pub index: usize,
    /// The index of the bone that the slot moves with.
    pub bone: usize,
    /// The attachment that the slot shows at this frame, by its place among
    /// all attachments of the skeleton; `None` if it shows nothing.
    pub attachment: Option<u32>,
    pub blend_mode: BlendMode,
    /// The deform values of the slot; empty unless a deform timeline drives
    /// the slot.
    pub deform: Vec<Scalar>,
}

/// The pose of a skeleton at one frame.
#[derive(Debug)]
pub struct Skeleton {
    /// The bones, by index.
    pub bones: Vec<Bone>,
    /// The slots, from the one drawn first to the one drawn last.
    pub draw_order: Vec<Slot>,
    /// Whether the colours of the skeleton's textures are already
    /// multiplied by their alpha.
    pub premultiplied_alpha: bool,
}

/// Whether no two slots have the same index.
pub open spec fn distinct_slots(slots: Seq<Slot>) -> bool {
    forall|p: int, q: int|
        0 <= p < q < slots.len() ==> (#[trigger] slots[p]).index != (#[trigger] slots[q]).index
}

} // verus!
