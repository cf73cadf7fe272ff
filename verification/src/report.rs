//! What a bake and an extraction report: failures, warnings, and the
//! tables that were too small.

use vstd::prelude::*;

verus! {

/// The tables whose sizes are fixed in advance.
#[derive(Clone, Copy, Debug, PartialEq, Eq, Structural)]
pub enum Table {
    Vertices,
    Indices,
    Attachments,
    Bones,
    Slots,
    Deform,
}

/// The part of an attachment's data that was being read when it turned out
/// to be malformed.
#[derive(Clone, Copy, Debug, PartialEq, Eq, Structural)]
pub enum ParseStage {
    /// The lists of bones and of weighted points do not go together, or
    /// name a bone that the skeleton does not have.
    Influences,
    /// There is not one texture coordinate per vertex.
    TextureCoordinates,
    /// A triangle names a vertex that the mesh does not have.
    Triangles,
}

/// Why an attachment could not be baked.
#[derive(Clone, Copy, Debug, PartialEq, Eq, Structural)]
pub enum BakeFailure {
    /// With this attachment the table would hold more than it is allowed.
    CapacityExceeded { table: Table },
    /// The attachment's data is malformed.
    AssetLoadFailure { stage: ParseStage },
}

/// A failed bake: the attachment at which it failed, by its skin and its
/// place in that skin, and why.
#[derive(Clone, Copy, Debug, PartialEq, Eq, Structural)]
pub struct BakeError {
    pub skin: usize,
    pub entry: usize,
    pub failure: BakeFailure,
}

/// What a bake did that its caller may want to log.
#[derive(Clone, Copy, Debug, PartialEq, Eq, Structural)]
pub enum BakeWarning {
    /// A vertex declared more than four influences; only the first four
    /// were kept.
    InfluencesTruncated { attachment: u32, vertex: u32, declared: u32 },
}

} // verus!
