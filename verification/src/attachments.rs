//! Counting the attachment points that hold a buffer. The reference count of
//! a buffer is meant to equal this number; the lemmas here are what the
//! context needs to keep it so.

use vstd::prelude::*;
use vstd::set_lib::lemma_set_subset_finite;
use crate::vertex_array::{BufferHandle, VertexArrayState};

verus! {

impl VertexArrayState {
    /// The slots of the vertex array that hold `buffer`.
    pub open spec fn slots_of(self, buffer: BufferHandle) -> Set<u32> {
        Set::new(
            |slot: u32| self.attachments.dom().contains(slot) && self.attachments[slot] == buffer,
        )
    }
}

/// The number of attachment points, over all of `vertex_arrays`, that hold
/// `buffer`.
pub open spec fn attachment_count(vertex_arrays: Seq<VertexArrayState>, buffer: BufferHandle) -> nat
    decreases vertex_arrays.len(),
{
    if vertex_arrays.len() == 0 {
        0
    } else {
        attachment_count(vertex_arrays.drop_last(), buffer) + vertex_arrays.last().slots_of(
            buffer,
        ).len()
    }
}

/// Every vertex array of the list has finitely many attachments.
pub open spec fn finitely_attached(vertex_arrays: Seq<VertexArrayState>) -> bool {
    forall|i: int|
        0 <= i < vertex_arrays.len() ==> (#[trigger] vertex_arrays[i]).attachments.dom().finite()
}

/// The slots that hold a buffer are among the slots that hold any, so there
/// are finitely many of them.
pub proof fn lemma_slots_finite(vertex_array: VertexArrayState, buffer: BufferHandle)
    requires
        vertex_array.attachments.dom().finite(),
    ensures
        vertex_array.slots_of(buffer).finite(),
{
    lemma_set_subset_finite(vertex_array.attachments.dom(), vertex_array.slots_of(buffer));
}

/// What a change of the attachment at `slot` does to the number of slots
/// that hold `buffer`: one more if `buffer` enters a slot that did not hold
/// it, one less if it leaves the slot, and no change otherwise.
pub proof fn lemma_slots_after_set_attachment(
    vertex_array: VertexArrayState,
    slot: u32,
    incoming: Option<BufferHandle>,
    buffer: BufferHandle,
)
    requires
        vertex_array.attachments.dom().finite(),
    ensures
        vertex_array.set_attachment(slot, incoming).attachments.dom().finite(),
        vertex_array.set_attachment(slot, incoming).slots_of(buffer).len() == vertex_array.slots_of(
            buffer,
        ).len() + (if incoming == Some(buffer) {
            1int
        } else {
            0int
        }) - (if vertex_array.attachment(slot) == Some(buffer) {
            1int
        } else {
            0int
        }),
        vertex_array.attachment(slot) == Some(buffer) ==> vertex_array.slots_of(buffer).len() > 0,
{
    let before = vertex_array.slots_of(buffer);
    let after = vertex_array.set_attachment(slot, incoming).slots_of(buffer);
    lemma_slots_finite(vertex_array, buffer);
    if incoming == Some(buffer) {
        assert(after =~= before.insert(slot));
    } else {
        assert(after =~= before.remove(slot));
    }
    if vertex_array.attachment(slot) == Some(buffer) {
        assert(before.contains(slot));
    } else {
        assert(!before.contains(slot));
    }
}

/// Replacing one vertex array of the list changes the count by the
/// difference between what the new one and the old one hold.
pub proof fn lemma_count_after_update(
    vertex_arrays: Seq<VertexArrayState>,
    position: int,
    replacement: VertexArrayState,
    buffer: BufferHandle,
)
    requires
        0 <= position < vertex_arrays.len(),
    ensures
        attachment_count(vertex_arrays.update(position, replacement), buffer) == attachment_count(
            vertex_arrays,
            buffer,
        ) - vertex_arrays[position].slots_of(buffer).len() + replacement.slots_of(buffer).len(),
    decreases vertex_arrays.len(),
{
    let updated = vertex_arrays.update(position, replacement);
    if position == vertex_arrays.len() - 1 {
        assert(updated.drop_last() =~= vertex_arrays.drop_last());
    } else {
        assert(updated.drop_last() =~= vertex_arrays.drop_last().update(position, replacement));
        lemma_count_after_update(vertex_arrays.drop_last(), position, replacement, buffer);
    }
}

/// A vertex array that joins the list adds what it holds to the count.
pub proof fn lemma_count_after_push(
    vertex_arrays: Seq<VertexArrayState>,
    joining: VertexArrayState,
    buffer: BufferHandle,
)
    ensures
        attachment_count(vertex_arrays.push(joining), buffer) == attachment_count(
            vertex_arrays,
            buffer,
        ) + joining.slots_of(buffer).len(),
{
    assert(vertex_arrays.push(joining).drop_last() =~= vertex_arrays);
}

/// The count is zero exactly when no slot of any vertex array holds the
/// buffer.
pub proof fn lemma_count_zero_iff_unattached(
    vertex_arrays: Seq<VertexArrayState>,
    buffer: BufferHandle,
)
    requires
        finitely_attached(vertex_arrays),
    ensures
        attachment_count(vertex_arrays, buffer) == 0 <==> forall|i: int, slot: u32|
            0 <= i < vertex_arrays.len() ==> (#[trigger] vertex_arrays[i].attachment(slot))
                != Some(buffer),
    decreases vertex_arrays.len(),
{
    if vertex_arrays.len() > 0 {
        let rest = vertex_arrays.drop_last();
        let last = vertex_arrays.last();
        lemma_count_zero_iff_unattached(rest, buffer);
        lemma_slots_finite(last, buffer);
        if attachment_count(vertex_arrays, buffer) == 0 {
            assert forall|i: int, slot: u32| 0 <= i < vertex_arrays.len() implies (
            #[trigger] vertex_arrays[i].attachment(slot)) != Some(buffer) by {
                if i < rest.len() {
                    assert(rest[i].attachment(slot) != Some(buffer));
                } else {
                    if last.attachment(slot) == Some(buffer) {
                        assert(last.slots_of(buffer).contains(slot));
                    }
                }
            }
        } else {
            if attachment_count(rest, buffer) != 0 {
                let (i, slot) = choose|i: int, slot: u32|
                    0 <= i < rest.len() && (#[trigger] rest[i].attachment(slot)) == Some(buffer);
                assert(vertex_arrays[i].attachment(slot) == Some(buffer));
            } else {
                let slot = last.slots_of(buffer).choose();
                assert(last.slots_of(buffer).contains(slot));
                assert(vertex_arrays[vertex_arrays.len() - 1].attachment(slot) == Some(buffer));
            }
        }
    }
}

} // verus!
