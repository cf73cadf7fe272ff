//! Extraction: the pose of one frame becomes the uniform tables that the
//! vertex shader reads.
//!
//! Every table has a fixed number of entries. What a table cannot hold is
//! left out, and the table is reported: nothing is ever written past the end
//! of a table.

use vstd::prelude::*;
use crate::buffers::{entry_of, AttachmentMetadata, BakedBuffers};
use crate::report::Table;
use crate::capacity::{TableCapacities, MAX_TABLE_LEN};
use crate::geometry::{Matrix4, Scalar};
use crate::pose::{Bone, Skeleton, Slot};

verus! {

/// The uniform tables of one frame.
#[derive(Debug, PartialEq, Eq)]
pub struct FrameUniforms {
    /// The matrix of each bone, by the bone's index; the identity where
    /// there is no such bone or it is not active.
    pub bones: Vec<Matrix4>,
    /// The deform values of the slots that have any, slot after slot in
    /// draw order; zero behind them.
    pub deform: Vec<Scalar>,
    /// For each slot, by its index, where its values start in `deform`;
    /// -1 where it has none.
    pub deform_offsets: Vec<i32>,
    /// For each slot, by its index, the index of its bone.
    pub slot_bones: Vec<i32>,
    /// For each baked attachment, by its place among all attachments, the
    /// index of the slot that shows it.
    pub attachment_slots: Vec<i32>,
}

/// What `extract` returns: the tables, and the tables that could not hold
/// all there was to hold.
#[derive(Debug, PartialEq, Eq)]
pub struct Extraction {
    pub uniforms: FrameUniforms,
    /// Each table whose capacity was exceeded, once: bones, slots,
    /// attachments, deform, in that order.
    pub exceeded: Vec<Table>,
}

// ---------------------------------------------------------------------------
// Bones
// ---------------------------------------------------------------------------

/// The bone table.
pub open spec fn bone_table(bones: Seq<Bone>, capacities: TableCapacities) -> Seq<Matrix4> {
    Seq::new(
        capacities.bones_spec(),
        |i: int|
            if i < bones.len() {
                bones[i].matrix()
            } else {
                Matrix4::identity()
            },
    )
}

/// Fills the bone table.
fn bone_pass(bones: &Vec<Bone>, capacities: &TableCapacities) -> (table: Vec<Matrix4>)
    ensures
        table@ == bone_table(bones@, *capacities),
{
    let capacity = capacities.bones();
    let mut table: Vec<Matrix4> = Vec::new();
    let mut i: usize = 0;
    while i < capacity
        invariant
            i <= capacity == capacities.bones_spec(),
            table@ == bone_table(bones@, *capacities).take(i as int),
        decreases capacity - i,
    {
        let m = if i < bones.len() {
            bones[i].matrix()
        } else {
            Matrix4::identity()
        };
        table.push(m);
        assert(bone_table(bones@, *capacities).take(i + 1) == bone_table(bones@, *capacities).take(
            i as int,
        ).push(m));
        i = i + 1;
    }
    assert(bone_table(bones@, *capacities).take(capacity as int) == bone_table(bones@, *capacities));
    table
}

// ---------------------------------------------------------------------------
// Slots and attachments
// ---------------------------------------------------------------------------

/// A table of `len` entries that all hold `value`.
pub open spec fn filled(len: nat, value: i32) -> Seq<i32> {
    Seq::new(len, |i: int| value)
}

/// Whether the slot-to-bone table can record the slot: the table has an
/// entry for the slot, and the bone table one for its bone.
pub open spec fn records_bone(slot: Slot, capacities: TableCapacities) -> bool {
    slot.index < capacities.slots_spec() && slot.bone < capacities.bones_spec()
}

/// The slot-to-bone table after the first `n` slots in draw order. Each
/// slot writes the index of its bone at its own index.
pub open spec fn slot_bones(slots: Seq<Slot>, capacities: TableCapacities, n: int) -> Seq<i32>
    decreases n,
{
    if n <= 0 {
        filled(capacities.slots_spec(), 0)
    } else if records_bone(slots[n - 1], capacities) {
        slot_bones(slots, capacities, n - 1).update(
            slots[n - 1].index as int,
            slots[n - 1].bone as i32,
        )
    } else {
        slot_bones(slots, capacities, n - 1)
    }
}

/// Whether the slot shows a baked attachment that the attachment-to-slot
/// table has an entry for.
pub open spec fn records_attachment(
    slot: Slot,
    entries: Seq<AttachmentMetadata>,
    capacities: TableCapacities,
) -> bool {
    &&& slot.index < capacities.slots_spec()
    &&& slot.attachment matches Some(attachment)
    &&& entry_of(entries, attachment) is Some
    &&& attachment < capacities.attachments_spec()
}

/// The attachment-to-slot table after the first `n` slots in draw order.
/// Each slot that shows a baked attachment writes its own index at the
/// place of the attachment.
pub open spec fn attachment_slots(
    slots: Seq<Slot>,
    entries: Seq<AttachmentMetadata>,
    capacities: TableCapacities,
    n: int,
) -> Seq<i32>
    decreases n,
{
    if n <= 0 {
        filled(capacities.attachments_spec(), 0)
    } else if records_attachment(slots[n - 1], entries, capacities) {
        attachment_slots(slots, entries, capacities, n - 1).update(
            slots[n - 1].attachment->0 as int,
            slots[n - 1].index as i32,
        )
    } else {
        attachment_slots(slots, entries, capacities, n - 1)
    }
}

/// Whether one of the first `n` slots has an index that the tables by slot
/// have no entry for.
pub open spec fn slots_exceeded(slots: Seq<Slot>, capacities: TableCapacities, n: int) -> bool {
    exists|p: int| 0 <= p < n && (#[trigger] slots[p]).index >= capacities.slots_spec()
}

/// Whether one of the first `n` slots shows a baked attachment that the
/// attachment-to-slot table has no entry for.
pub open spec fn attachments_exceeded(
    slots: Seq<Slot>,
    entries: Seq<AttachmentMetadata>,
    capacities: TableCapacities,
    n: int,
) -> bool {
    exists|p: int|
        0 <= p < n && (#[trigger] slots[p]).index < capacities.slots_spec() && slots[p].attachment is Some
            && entry_of(entries, slots[p].attachment->0) is Some && slots[p].attachment->0
            >= capacities.attachments_spec()
}

/// What the pass over the slots leaves.
struct SlotTables {
    slot_bones: Vec<i32>,
    attachment_slots: Vec<i32>,
    slots_exceeded: bool,
    attachments_exceeded: bool,
}

/// Makes a table of `len` entries that all hold `value`.
fn fill(len: usize, value: i32) -> (table: Vec<i32>)
    ensures
        table@ == filled(len as nat, value),
{
    let mut table: Vec<i32> = Vec::new();
    let mut i: usize = 0;
    while i < len
        invariant
            i <= len,
            table@ == filled(i as nat, value),
        decreases len - i,
    {
        table.push(value);
        assert(table@ == filled((i + 1) as nat, value));
        i = i + 1;
    }
    table
}

/// Fills the tables by slot and by attachment, slot after slot in draw
/// order.
fn slot_pass(slots: &Vec<Slot>, baked: &BakedBuffers, capacities: &TableCapacities) -> (tables:
    SlotTables)
    ensures
        tables.slot_bones@ == slot_bones(slots@, *capacities, slots@.len() as int),
        tables.attachment_slots@ == attachment_slots(
            slots@,
            baked.attachments@,
            *capacities,
            slots@.len() as int,
        ),
        tables.slots_exceeded == slots_exceeded(slots@, *capacities, slots@.len() as int),
        tables.attachments_exceeded == attachments_exceeded(
            slots@,
            baked.attachments@,
            *capacities,
            slots@.len() as int,
        ),
{
    let slot_capacity = capacities.slots();
    let bone_capacity = capacities.bones();
    let attachment_capacity = capacities.attachments();
    let mut tables = SlotTables {
        slot_bones: fill(slot_capacity, 0),
        attachment_slots: fill(attachment_capacity, 0),
        slots_exceeded: false,
        attachments_exceeded: false,
    };
    let mut n: usize = 0;
    while n < slots.len()
        invariant
            n <= slots.len(),
            slot_capacity == capacities.slots_spec(),
            bone_capacity == capacities.bones_spec(),
            attachment_capacity == capacities.attachments_spec(),
            slot_capacity <= MAX_TABLE_LEN,
            bone_capacity <= MAX_TABLE_LEN,
            tables.slot_bones@ == slot_bones(slots@, *capacities, n as int),
            tables.slot_bones@.len() == slot_capacity,
            tables.attachment_slots@ == attachment_slots(
                slots@,
                baked.attachments@,
                *capacities,
                n as int,
            ),
            tables.attachment_slots@.len() == attachment_capacity,
            tables.slots_exceeded == slots_exceeded(slots@, *capacities, n as int),
            tables.attachments_exceeded == attachments_exceeded(
                slots@,
                baked.attachments@,
                *capacities,
                n as int,
            ),
        decreases slots.len() - n,
    {
        let slot = &slots[n];
        let ghost was_slots = tables.slots_exceeded;
        let ghost was_attachments = tables.attachments_exceeded;
        if slot.index < slot_capacity {
            if slot.bone < bone_capacity {
                tables.slot_bones[slot.index] = slot.bone as i32;
            }
            if let Some(attachment) = slot.attachment {
                if baked.find(attachment).is_some() {
                    if (attachment as usize) < attachment_capacity {
                        tables.attachment_slots[attachment as usize] = slot.index as i32;
                    } else {
                        tables.attachments_exceeded = true;
                    }
                }
            }
        } else {
            tables.slots_exceeded = true;
        }
        proof {
            let next = n as int + 1;
            assert(slots_exceeded(slots@, *capacities, next) == (was_slots || slots@[n as int].index
                >= capacities.slots_spec())) by {
                if slots_exceeded(slots@, *capacities, next) {
                    let p = choose|p: int|
                        0 <= p < next && (#[trigger] slots@[p]).index >= capacities.slots_spec();
                    if p < n {
                        assert(slots_exceeded(slots@, *capacities, n as int));
                    }
                }
                if was_slots {
                    let p = choose|p: int|
                        0 <= p < n && (#[trigger] slots@[p]).index >= capacities.slots_spec();
                    assert(0 <= p < next);
                }
            }
            let here = slots@[n as int];
            let entries = baked.attachments@;
            let hit = here.index < capacities.slots_spec() && here.attachment is Some && entry_of(
                entries,
                here.attachment->0,
            ) is Some && here.attachment->0 >= capacities.attachments_spec();
            assert(attachments_exceeded(slots@, entries, *capacities, next) == (was_attachments
                || hit)) by {
                if attachments_exceeded(slots@, entries, *capacities, next) {
                    let p = choose|p: int|
                        0 <= p < next && (#[trigger] slots@[p]).index < capacities.slots_spec()
                            && slots@[p].attachment is Some && entry_of(
                            entries,
                            slots@[p].attachment->0,
                        ) is Some && slots@[p].attachment->0 >= capacities.attachments_spec();
                    if p < n {
                        assert(attachments_exceeded(slots@, entries, *capacities, n as int));
                    }
                }
                if was_attachments {
                    let p = choose|p: int|
                        0 <= p < n && (#[trigger] slots@[p]).index < capacities.slots_spec()
                            && slots@[p].attachment is Some && entry_of(
                            entries,
                            slots@[p].attachment->0,
                        ) is Some && slots@[p].attachment->0 >= capacities.attachments_spec();
                    assert(0 <= p < next);
                }
            }
        }
        n = n + 1;
    }
    tables
}

// ---------------------------------------------------------------------------
// Deform
// ---------------------------------------------------------------------------

/// The number of deform values that a slot brings: those of its deform
/// array, or none if the tables by slot have no entry for the slot.
pub open spec fn deform_len(slot: Slot, capacities: TableCapacities) -> int {
    if slot.index < capacities.slots_spec() {
        slot.deform@.len() as int
    } else {
        0
    }
}

/// The number of deform values that the first `n` slots bring.
pub open spec fn deform_total(slots: Seq<Slot>, capacities: TableCapacities, n: int) -> int
    decreases n,
{
    if n <= 0 {
        0
    } else {
        deform_total(slots, capacities, n - 1) + deform_len(slots[n - 1], capacities)
    }
}

/// Whether the deform table has room for the values of the slot at the
/// place `p` of the draw order behind those of the slots before it. Once
/// one slot does not fit, none after it does.
pub open spec fn deform_fits(slots: Seq<Slot>, capacities: TableCapacities, p: int) -> bool {
    deform_total(slots, capacities, p + 1) <= capacities.deform_spec()
}

/// Where the deform values of the slot at the place `p` of the draw order
/// start: behind those of the slots before it. -1 if the slot has no
/// values or they do not fit.
pub open spec fn deform_offset(slots: Seq<Slot>, capacities: TableCapacities, p: int) -> i32 {
    if slots[p].deform@.len() > 0 && deform_fits(slots, capacities, p) {
        deform_total(slots, capacities, p) as i32
    } else {
        -1i32
    }
}

/// The deform-offset table after the first `n` slots in draw order. Each
/// slot writes its offset at its own index.
pub open spec fn deform_offsets(slots: Seq<Slot>, capacities: TableCapacities, n: int) -> Seq<i32>
    decreases n,
{
    if n <= 0 {
        filled(capacities.slots_spec(), -1i32)
    } else if slots[n - 1].index < capacities.slots_spec() {
        deform_offsets(slots, capacities, n - 1).update(
            slots[n - 1].index as int,
            deform_offset(slots, capacities, n - 1),
        )
    } else {
        deform_offsets(slots, capacities, n - 1)
    }
}

/// The deform values of the first `n` slots, as far as they fit.
pub open spec fn deform_values(slots: Seq<Slot>, capacities: TableCapacities, n: int) -> Seq<Scalar>
    decreases n,
{
    if n <= 0 {
        Seq::empty()
    } else if slots[n - 1].index < capacities.slots_spec() && deform_fits(slots, capacities, n - 1) {
        deform_values(slots, capacities, n - 1) + slots[n - 1].deform@
    } else {
        deform_values(slots, capacities, n - 1)
    }
}

/// The deform table: the values that fit, and zero behind them.
pub open spec fn deform_table(slots: Seq<Slot>, capacities: TableCapacities) -> Seq<Scalar> {
    let values = deform_values(slots, capacities, slots.len() as int);
    Seq::new(
        capacities.deform_spec(),
        |i: int|
            if i < values.len() {
                values[i]
            } else {
                Scalar::zero()
            },
    )
}

/// The count of deform values never goes down along the draw order.
pub proof fn lemma_deform_total_grows(slots: Seq<Slot>, capacities: TableCapacities, few: int, many: int)
    requires
        0 <= few <= many,
    ensures
        0 <= deform_total(slots, capacities, few) <= deform_total(slots, capacities, many),
    decreases many,
{
    if many > 0 {
        if few < many {
            lemma_deform_total_grows(slots, capacities, few, many - 1);
        } else {
            lemma_deform_total_grows(slots, capacities, few - 1, many - 1);
        }
    }
}

/// While the values fit they are all there, and where the slot at `n - 1`
/// fits the table holds its values from its offset on.
pub proof fn lemma_deform_values(slots: Seq<Slot>, capacities: TableCapacities, n: int)
    requires
        0 <= n,
    ensures
        deform_values(slots, capacities, n).len() <= deform_total(slots, capacities, n),
        deform_total(slots, capacities, n) <= capacities.deform_spec() ==> deform_values(
            slots,
            capacities,
            n,
        ).len() == deform_total(slots, capacities, n),
    decreases n,
{
    if n > 0 {
        lemma_deform_values(slots, capacities, n - 1);
        lemma_deform_total_grows(slots, capacities, n - 1, n);
    }
}

/// What the pass over the deform arrays leaves.
struct DeformTables {
    deform: Vec<Scalar>,
    deform_offsets: Vec<i32>,
    exceeded: bool,
}

/// Lays out the deform values, slot after slot in draw order.
fn deform_pass(slots: &Vec<Slot>, capacities: &TableCapacities) -> (tables: DeformTables)
    ensures
        tables.deform@ == deform_table(slots@, *capacities),
        tables.deform_offsets@ == deform_offsets(slots@, *capacities, slots@.len() as int),
        tables.exceeded == (deform_total(slots@, *capacities, slots@.len() as int)
            > capacities.deform_spec()),
{
    let slot_capacity = capacities.slots();
    let capacity = capacities.deform();
    let mut deform: Vec<Scalar> = Vec::new();
    let mut offsets = fill(slot_capacity, -1);
    let mut exceeded = false;
    let mut n: usize = 0;
    while n < slots.len()
        invariant
            n <= slots.len(),
            slot_capacity == capacities.slots_spec(),
            capacity == capacities.deform_spec(),
            capacity <= MAX_TABLE_LEN,
            deform@ == deform_values(slots@, *capacities, n as int),
            deform@.len() <= capacity,
            offsets@ == deform_offsets(slots@, *capacities, n as int),
            offsets@.len() == slot_capacity,
            exceeded == (deform_total(slots@, *capacities, n as int) > capacity),
        decreases slots.len() - n,
    {
        let slot = &slots[n];
        proof {
            lemma_deform_values(slots@, *capacities, n as int);
            lemma_deform_values(slots@, *capacities, n as int + 1);
            lemma_deform_total_grows(slots@, *capacities, n as int, n as int + 1);
        }
        if slot.index < slot_capacity {
            let len = slot.deform.len();
            if !exceeded && len <= capacity - deform.len() {
                let offset: i32 = if len > 0 {
                    deform.len() as i32
                } else {
                    -1
                };
                let mut i: usize = 0;
                while i < len
                    invariant
                        i <= len == slot.deform@.len(),
                        deform@ == deform_values(slots@, *capacities, n as int) + slot.deform@.take(
                            i as int,
                        ),
                    decreases len - i,
                {
                    deform.push(slot.deform[i]);
                    assert(slot.deform@.take(i + 1) == slot.deform@.take(i as int).push(
                        slot.deform@[i as int],
                    ));
                    i = i + 1;
                }
                assert(slot.deform@.take(len as int) == slot.deform@);
                offsets[slot.index] = offset;
            } else {
                exceeded = true;
                offsets[slot.index] = -1;
            }
        }
        n = n + 1;
    }
    let ghost values = deform@;
    while deform.len() < capacity
        invariant
            values == deform_values(slots@, *capacities, slots@.len() as int),
            capacity == capacities.deform_spec(),
            values.len() <= deform@.len() <= capacity,
            forall|i: int|
                0 <= i < deform@.len() ==> (#[trigger] deform@[i]) == if i < values.len() {
                    values[i]
                } else {
                    Scalar::zero()
                },
        decreases capacity - deform.len(),
    {
        deform.push(Scalar::zero());
    }
    assert(deform@ == deform_table(slots@, *capacities));
    DeformTables { deform, deform_offsets: offsets, exceeded }
}

// ---------------------------------------------------------------------------
// The extraction
// ---------------------------------------------------------------------------

/// The one table, or none, according to `exceeded`.
pub open spec fn reported(table: Table, exceeded: bool) -> Seq<Table> {
    if exceeded {
        seq![table]
    } else {
        Seq::empty()
    }
}

/// The tables that cannot hold all of a pose.
pub open spec fn exceeded_tables(
    skeleton: Skeleton,
    entries: Seq<AttachmentMetadata>,
    capacities: TableCapacities,
) -> Seq<Table> {
    let slots = skeleton.draw_order@;
    let n = slots.len() as int;
    reported(Table::Bones, skeleton.bones@.len() > capacities.bones_spec()) + reported(
        Table::Slots,
        slots_exceeded(slots, capacities, n),
    ) + reported(Table::Attachments, attachments_exceeded(slots, entries, capacities, n)) + reported(
        Table::Deform,
        deform_total(slots, capacities, n) > capacities.deform_spec(),
    )
}

impl FrameUniforms {
    /// Whether no table sends the shader past the end of another: an entry
    /// of the slot-to-bone table is 0 or the index of a bone that the bone
    /// table has, an entry of the attachment-to-slot table is 0 or the
    /// index of a slot that the tables by slot have, and an entry of the
    /// deform-offset table is -1 or a place within the deform table.
    pub open spec fn in_range(&self) -> bool {
        &&& forall|i: int|
            0 <= i < self.slot_bones@.len() ==> {
                let bone = #[trigger] self.slot_bones@[i];
                bone == 0 || 0 < bone < self.bones@.len()
            }
        &&& forall|i: int|
            0 <= i < self.attachment_slots@.len() ==> {
                let slot = #[trigger] self.attachment_slots@[i];
                slot == 0 || 0 < slot < self.slot_bones@.len()
            }
        &&& forall|i: int|
            0 <= i < self.deform_offsets@.len() ==> {
                let offset = #[trigger] self.deform_offsets@[i];
                offset == -1 || 0 <= offset < self.deform@.len()
            }
    }
}

impl Extraction {
    /// Whether this is the extraction of the pose.
    pub open spec fn is_of(
        &self,
        skeleton: Skeleton,
        entries: Seq<AttachmentMetadata>,
        capacities: TableCapacities,
    ) -> bool {
        let slots = skeleton.draw_order@;
        let n = slots.len() as int;
        &&& self.uniforms.bones@ == bone_table(skeleton.bones@, capacities)
        &&& self.uniforms.slot_bones@ == slot_bones(slots, capacities, n)
        &&& self.uniforms.attachment_slots@ == attachment_slots(slots, entries, capacities, n)
        &&& self.uniforms.deform@ == deform_table(slots, capacities)
        &&& self.uniforms.deform_offsets@ == deform_offsets(slots, capacities, n)
        &&& self.exceeded@ == exceeded_tables(skeleton, entries, capacities)
    }
}

/// Extracts the uniform tables of one frame from the pose.
///
/// The bone table is filled by bone index. The tables by slot and by
/// attachment are written slot after slot in draw order, so that of two
/// slots that write the same entry the one drawn later is recorded. The
/// deform values are laid out in draw order.
///
/// Every table has as many entries as `capacities` says, whatever the pose
/// holds. What has no entry is left out, and its table is listed in
/// `exceeded`. No entry of a table leads past the end of another table.
pub fn extract(skeleton: &Skeleton, baked: &BakedBuffers, capacities: &TableCapacities) -> (extraction:
    Extraction)
    ensures
        extraction.is_of(*skeleton, baked.attachments@, *capacities),
        extraction.uniforms.bones@.len() == capacities.bones_spec(),
        extraction.uniforms.slot_bones@.len() == capacities.slots_spec(),
        extraction.uniforms.deform_offsets@.len() == capacities.slots_spec(),
        extraction.uniforms.attachment_slots@.len() == capacities.attachments_spec(),
        extraction.uniforms.deform@.len() == capacities.deform_spec(),
        extraction.uniforms.in_range(),
        extraction.exceeded@.len() == 0 <==> {
            &&& skeleton.bones@.len() <= capacities.bones_spec()
            &&& !slots_exceeded(skeleton.draw_order@, *capacities, skeleton.draw_order@.len() as int)
            &&& !attachments_exceeded(
                skeleton.draw_order@,
                baked.attachments@,
                *capacities,
                skeleton.draw_order@.len() as int,
            )
            &&& deform_total(skeleton.draw_order@, *capacities, skeleton.draw_order@.len() as int)
                <= capacities.deform_spec()
        },
{
    let bones = bone_pass(&skeleton.bones, capacities);
    let by_slot = slot_pass(&skeleton.draw_order, baked, capacities);
    let by_deform = deform_pass(&skeleton.draw_order, capacities);
    let mut exceeded: Vec<Table> = Vec::new();
    if skeleton.bones.len() > capacities.bones() {
        exceeded.push(Table::Bones);
    }
    if by_slot.slots_exceeded {
        exceeded.push(Table::Slots);
    }
    if by_slot.attachments_exceeded {
        exceeded.push(Table::Attachments);
    }
    if by_deform.exceeded {
        exceeded.push(Table::Deform);
    }
    proof {
        let n = skeleton.draw_order@.len() as int;
        lemma_table_lengths(skeleton.draw_order@, baked.attachments@, *capacities, n);
        crate::extract_laws::lemma_tables_in_range(
            skeleton.draw_order@,
            baked.attachments@,
            *capacities,
            n,
        );
        assert(exceeded@ == exceeded_tables(*skeleton, baked.attachments@, *capacities));
    }
    Extraction {
        uniforms: FrameUniforms {
            bones,
            deform: by_deform.deform,
            deform_offsets: by_deform.deform_offsets,
            slot_bones: by_slot.slot_bones,
            attachment_slots: by_slot.attachment_slots,
        },
        exceeded,
    }
}

/// The tables by slot and by attachment keep their lengths.
pub proof fn lemma_table_lengths(
    slots: Seq<Slot>,
    entries: Seq<AttachmentMetadata>,
    capacities: TableCapacities,
    n: int,
)
    ensures
        slot_bones(slots, capacities, n).len() == capacities.slots_spec(),
        deform_offsets(slots, capacities, n).len() == capacities.slots_spec(),
        attachment_slots(slots, entries, capacities, n).len() == capacities.attachments_spec(),
    decreases n,
{
    if n > 0 {
        lemma_table_lengths(slots, entries, capacities, n - 1);
    }
}

} // verus!
