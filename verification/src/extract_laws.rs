//! What holds of every extraction.

use vstd::prelude::*;
use crate::buffers::AttachmentMetadata;
use crate::capacity::TableCapacities;
use crate::extract::{
    attachment_slots, deform_fits, deform_offset, deform_offsets, deform_table, deform_total,
    deform_values, lemma_deform_total_grows, lemma_deform_values, lemma_table_lengths,
    records_bone, slot_bones, Extraction,
};
use crate::pose::{distinct_slots, Skeleton, Slot};

verus! {

/// Extraction is a function of the pose: two extractions of the same pose,
/// against the same bake and with the same capacities, hold the same tables
/// and report the same.
pub proof fn lemma_extract_deterministic(
    first: Extraction,
    second: Extraction,
    skeleton: Skeleton,
    entries: Seq<AttachmentMetadata>,
    capacities: TableCapacities,
)
    requires
        first.is_of(skeleton, entries, capacities),
        second.is_of(skeleton, entries, capacities),
    ensures
        first.uniforms.bones@ == second.uniforms.bones@,
        first.uniforms.deform@ == second.uniforms.deform@,
        first.uniforms.deform_offsets@ == second.uniforms.deform_offsets@,
        first.uniforms.slot_bones@ == second.uniforms.slot_bones@,
        first.uniforms.attachment_slots@ == second.uniforms.attachment_slots@,
        first.exceeded@ == second.exceeded@,
{
}

/// A slot without deform values has the offset -1.
pub proof fn lemma_no_deform(slots: Seq<Slot>, capacities: TableCapacities, p: int)
    requires
        0 <= p < slots.len(),
        slots[p].deform@.len() == 0,
    ensures
        deform_offset(slots, capacities, p) == -1,
{
}

/// The values that fit stay where they are when more slots follow.
pub proof fn lemma_deform_values_stay(slots: Seq<Slot>, capacities: TableCapacities, few: int, many: int)
    requires
        0 <= few <= many,
    ensures
        deform_values(slots, capacities, few).len() <= deform_values(slots, capacities, many).len(),
        deform_values(slots, capacities, many).take(
            deform_values(slots, capacities, few).len() as int,
        ) == deform_values(slots, capacities, few),
    decreases many - few,
{
    let short = deform_values(slots, capacities, few);
    if few < many {
        lemma_deform_values_stay(slots, capacities, few, many - 1);
        let middle = deform_values(slots, capacities, many - 1);
        let long = deform_values(slots, capacities, many);
        assert(long.take(short.len() as int) =~= middle.take(short.len() as int));
    } else {
        assert(short.take(short.len() as int) =~= short);
    }
}

/// A slot with `n` deform values that fit occupies `n` cells of the deform
/// table, one after the other from its offset on, and they hold its values.
pub proof fn lemma_deform_cells(slots: Seq<Slot>, capacities: TableCapacities, p: int)
    requires
        capacities.wf(),
        0 <= p < slots.len(),
        slots[p].index < capacities.slots_spec(),
        slots[p].deform@.len() > 0,
        deform_fits(slots, capacities, p),
    ensures
        ({
            let offset = deform_offset(slots, capacities, p);
            let n = slots[p].deform@.len();
            &&& 0 <= offset
            &&& offset == deform_total(slots, capacities, p)
            &&& offset + n <= capacities.deform_spec()
            &&& forall|i: int|
                0 <= i < n ==> deform_table(slots, capacities)[offset + i] == #[trigger] slots[p].deform@[i]
        }),
{
    capacities.lemma_bounded();
    lemma_deform_total_grows(slots, capacities, p, p + 1);
    lemma_deform_values(slots, capacities, p);
    lemma_deform_values(slots, capacities, p + 1);
    lemma_deform_values_stay(slots, capacities, p + 1, slots.len() as int);
    let start = deform_total(slots, capacities, p);
    let upto = deform_values(slots, capacities, p + 1);
    let all = deform_values(slots, capacities, slots.len() as int);
    assert forall|i: int| 0 <= i < slots[p].deform@.len() implies deform_table(slots, capacities)[start
        + i] == #[trigger] slots[p].deform@[i] by {
        assert(upto[start + i] == slots[p].deform@[i]);
        assert(all.take(upto.len() as int)[start + i] == all[start + i]);
    }
}

/// The cells of two slots do not overlap: those of the slot drawn first end
/// before those of the other start.
pub proof fn lemma_deform_disjoint(slots: Seq<Slot>, capacities: TableCapacities, p: int, q: int)
    requires
        capacities.wf(),
        0 <= p < q < slots.len(),
        slots[p].index < capacities.slots_spec(),
        slots[q].index < capacities.slots_spec(),
        slots[p].deform@.len() > 0,
        slots[q].deform@.len() > 0,
        deform_fits(slots, capacities, p),
        deform_fits(slots, capacities, q),
    ensures
        deform_offset(slots, capacities, p) + slots[p].deform@.len() <= deform_offset(
            slots,
            capacities,
            q,
        ),
{
    capacities.lemma_bounded();
    lemma_deform_total_grows(slots, capacities, p, p + 1);
    lemma_deform_total_grows(slots, capacities, p + 1, q);
    lemma_deform_total_grows(slots, capacities, q, q + 1);
}

/// Where no two slots have the same index, the deform-offset table holds
/// at the index of each slot the offset of that slot.
pub proof fn lemma_offset_by_index(slots: Seq<Slot>, capacities: TableCapacities, p: int, n: int)
    requires
        distinct_slots(slots),
        0 <= p < n <= slots.len(),
        slots[p].index < capacities.slots_spec(),
    ensures
        deform_offsets(slots, capacities, n)[slots[p].index as int] == deform_offset(
            slots,
            capacities,
            p,
        ),
    decreases n,
{
    lemma_table_lengths(slots, Seq::empty(), capacities, n - 1);
    if p < n - 1 {
        lemma_offset_by_index(slots, capacities, p, n - 1);
        assert(slots[p].index != slots[n - 1].index);
    }
}

/// Where no two slots have the same index, the slot-to-bone table holds at
/// the index of each slot the index of that slot's bone.
pub proof fn lemma_bone_by_index(slots: Seq<Slot>, capacities: TableCapacities, p: int, n: int)
    requires
        capacities.wf(),
        distinct_slots(slots),
        0 <= p < n <= slots.len(),
        records_bone(slots[p], capacities),
    ensures
        slot_bones(slots, capacities, n)[slots[p].index as int] == slots[p].bone,
    decreases n,
{
    capacities.lemma_bounded();
    lemma_table_lengths(slots, Seq::empty(), capacities, n - 1);
    if p < n - 1 {
        lemma_bone_by_index(slots, capacities, p, n - 1);
        assert(slots[p].index != slots[n - 1].index);
    }
}

/// Whatever the pose, no table sends the shader past the end of another:
/// an entry of the slot-to-bone table is 0 or the index of a bone that the
/// bone table has, an entry of the attachment-to-slot table is 0 or the
/// index of a slot that the tables by slot have, and an entry of the
/// deform-offset table is -1 or a place within the deform table.
pub proof fn lemma_tables_in_range(
    slots: Seq<Slot>,
    entries: Seq<AttachmentMetadata>,
    capacities: TableCapacities,
    n: int,
)
    requires
        capacities.wf(),
    ensures
        forall|i: int|
            0 <= i < slot_bones(slots, capacities, n).len() ==> {
                let bone = #[trigger] slot_bones(slots, capacities, n)[i];
                bone == 0 || 0 < bone < capacities.bones_spec()
            },
        forall|i: int|
            0 <= i < attachment_slots(slots, entries, capacities, n).len() ==> {
                let slot = #[trigger] attachment_slots(slots, entries, capacities, n)[i];
                slot == 0 || 0 < slot < capacities.slots_spec()
            },
        forall|i: int|
            0 <= i < deform_offsets(slots, capacities, n).len() ==> {
                let offset = #[trigger] deform_offsets(slots, capacities, n)[i];
                offset == -1 || 0 <= offset < capacities.deform_spec()
            },
    decreases n,
{
    capacities.lemma_bounded();
    if n > 0 {
        lemma_tables_in_range(slots, entries, capacities, n - 1);
        lemma_table_lengths(slots, entries, capacities, n - 1);
        lemma_deform_total_grows(slots, capacities, n - 1, n);
        lemma_deform_total_grows(slots, capacities, 0, n - 1);
    }
}

} // verus!
