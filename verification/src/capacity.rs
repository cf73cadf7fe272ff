//! The sizes of the per-frame uniform tables.

use vstd::prelude::*;

verus! {

/// The most entries that a uniform table can have: its entries are numbered
/// with signed 32-bit integers.
pub const MAX_TABLE_LEN: usize = 0x7fff_ffff;

/// The number of entries of each uniform table.
#[derive(Clone, Copy, Debug)]
pub struct TableCapacities {
    bones: usize,
    slots: usize,
    attachments: usize,
    deform: usize,
}

impl TableCapacities {
    /// Whether no capacity is above `MAX_TABLE_LEN`. Every value that
    /// `new` hands out is so.
    #[verifier::type_invariant]
    pub closed spec fn wf(self) -> bool {
        &&& self.bones <= MAX_TABLE_LEN
        &&& self.slots <= MAX_TABLE_LEN
        &&& self.attachments <= MAX_TABLE_LEN
        &&& self.deform <= MAX_TABLE_LEN
    }

    /// The number of matrices of the bone table.
    pub closed spec fn bones_spec(self) -> nat {
        self.bones as nat
    }

    /// The number of entries of the two tables that are indexed by slot.
    pub closed spec fn slots_spec(self) -> nat {
        self.slots as nat
    }

    /// The number of entries of the attachment-to-slot table.
    pub closed spec fn attachments_spec(self) -> nat {
        self.attachments as nat
    }

    /// The number of scalars of the deform table.
    pub closed spec fn deform_spec(self) -> nat {
        self.deform as nat
    }

    /// No capacity of a valid value is above `MAX_TABLE_LEN`.
    pub proof fn lemma_bounded(self)
        requires
            self.wf(),
        ensures
            self.bones_spec() <= MAX_TABLE_LEN,
            self.slots_spec() <= MAX_TABLE_LEN,
            self.attachments_spec() <= MAX_TABLE_LEN,
            self.deform_spec() <= MAX_TABLE_LEN,
    {
    }

    /// The capacities, if none of them is above `MAX_TABLE_LEN`.
    pub fn new(bones: usize, slots: usize, attachments: usize, deform: usize) -> (capacities: Option<
        TableCapacities,
    >)
        ensures
            capacities is Some <==> bones <= MAX_TABLE_LEN && slots <= MAX_TABLE_LEN && attachments
                <= MAX_TABLE_LEN && deform <= MAX_TABLE_LEN,
            capacities matches Some(c) ==> {
                &&& c.wf()
                &&& c.bones_spec() == bones
                &&& c.slots_spec() == slots
                &&& c.attachments_spec() == attachments
                &&& c.deform_spec() == deform
            },
    {
        if bones <= MAX_TABLE_LEN && slots <= MAX_TABLE_LEN && attachments <= MAX_TABLE_LEN && deform
            <= MAX_TABLE_LEN {
            Some(TableCapacities { bones, slots, attachments, deform })
        } else {
            None
        }
    }

    /// The number of matrices of the bone table.
    pub fn bones(&self) -> (n: usize)
        ensures
            n == self.bones_spec(),
            n <= MAX_TABLE_LEN,
            self.wf(),
    {
        proof {
            use_type_invariant(self);
        }
        self.bones
    }

    /// The number of entries of the two tables that are indexed by slot.
    pub fn slots(&self) -> (n: usize)
        ensures
            n == self.slots_spec(),
            n <= MAX_TABLE_LEN,
            self.wf(),
    {
        proof {
            use_type_invariant(self);
        }
        self.slots
    }

    /// The number of entries of the attachment-to-slot table.
    pub fn attachments(&self) -> (n: usize)
        ensures
            n == self.attachments_spec(),
            n <= MAX_TABLE_LEN,
            self.wf(),
    {
        proof {
            use_type_invariant(self);
        }
        self.attachments
    }

    /// The number of scalars of the deform table.
    pub fn deform(&self) -> (n: usize)
        ensures
            n == self.deform_spec(),
            n <= MAX_TABLE_LEN,
            self.wf(),
    {
        proof {
            use_type_invariant(self);
        }
        self.deform
    }
}

} // verus!
