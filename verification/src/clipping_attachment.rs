//! Clipping attachments: polygons that mask other slots.
//!
//! The skinning pipeline does not draw with clipping masks. A clipping
//! attachment is kept in the skeleton data so that a slot can name it, and
//! it is passed over wherever geometry is baked or drawn.

use vstd::prelude::*;

verus! {

/// What every attachment has, whatever its kind: the name by which a skin
/// lists it.
#[derive(Debug)]
pub struct AttachmentBase {
    pub name: String,
}

/// A clipping polygon, with the slot at which its clipping ends.
#[derive(Debug)]
pub struct ClippingAttachment {
    base: AttachmentBase,
    end_slot: Option<usize>,
}

impl ClippingAttachment {
    /// The part that this attachment shares with all others.
    pub closed spec fn base(&self) -> AttachmentBase {
        self.base
    }

    /// The index of the slot at which clipping ends, if there is one.
    pub closed spec fn end_slot_spec(&self) -> Option<usize> {
        self.end_slot
    }

    /// A clipping attachment of the given name.
    pub fn new(name: String, end_slot: Option<usize>) -> (clip: ClippingAttachment)
        ensures
            clip.base().name == name,
            clip.end_slot_spec() == end_slot,
    {
        ClippingAttachment { base: AttachmentBase { name }, end_slot }
    }

    /// The part that this attachment shares with all others.
    pub fn attachment(&self) -> (base: &AttachmentBase)
        ensures
            *base == self.base(),
    {
        &self.base
    }

    /// The index of the slot at which clipping ends, if there is one.
    #[verifier::when_used_as_spec(end_slot_spec)]
    pub fn end_slot(&self) -> (slot: Option<usize>)
        ensures
            slot == self.end_slot_spec(),
    {
        self.end_slot
    }
}

} // verus!
