//! A vertex array object: sticky flags, the buffers attached to its
//! attribute slots, and the snapshot of the two context-wide buffer bindings
//! that was taken when it was last deactivated.

use vstd::prelude::*;
use std::collections::HashMap;
use crate::buffer::{BufferState, WebGLBuffer};
use crate::command::{emitted, Command, WebGLCommand, WebGLVertexArrayId};

verus! {

broadcast use vstd::std_specs::hash::group_hash_axioms;

/// Refers to a buffer by its place in the arena that holds the buffers.
#[derive(Clone, Copy, Debug, PartialEq, Eq, Hash, Structural)]
pub struct BufferHandle(pub usize);

impl BufferHandle {
    /// The place that the handle refers to.
    pub open spec fn index(self) -> int {
        self.0 as int
    }
}

/// Refers to a vertex array object by its place in the arena that holds the
/// vertex arrays.
#[derive(Clone, Copy, Debug, PartialEq, Eq, Hash, Structural)]
pub struct VertexArrayHandle(pub usize);

impl VertexArrayHandle {
    /// The place that the handle refers to.
    pub open spec fn index(self) -> int {
        self.0 as int
    }
}

/// Mathematical state of a vertex array object.
#[verifier::ext_equal]
pub struct VertexArrayState {
    pub id: WebGLVertexArrayId,
    /// Set by the first successful bind, never cleared.
    pub ever_bound: bool,
    /// Set by deletion, never cleared.
    pub deleted: bool,
    /// The buffer attached to each attribute slot that has one.
    pub attachments: Map<u32, BufferHandle>,
    /// The array buffer binding saved at the last deactivation.
    pub bound_buffer_array: Option<BufferHandle>,
    /// The element array buffer binding saved at the last deactivation.
    pub bound_buffer_element_array: Option<BufferHandle>,
}

impl VertexArrayState {
    /// A vertex array as it is right after creation.
    pub open spec fn fresh(id: WebGLVertexArrayId) -> VertexArrayState {
        VertexArrayState {
            id,
            ever_bound: false,
            deleted: false,
            attachments: Map::empty(),
            bound_buffer_array: None,
            bound_buffer_element_array: None,
        }
    }

    /// The buffer attached to `slot`, if any.
    pub open spec fn attachment(self, slot: u32) -> Option<BufferHandle> {
        if self.attachments.dom().contains(slot) {
            Some(self.attachments[slot])
        } else {
            None
        }
    }

    pub open spec fn set_attachment(self, slot: u32, buffer: Option<BufferHandle>) -> VertexArrayState {
        VertexArrayState {
            attachments: match buffer {
                Some(handle) => self.attachments.insert(slot, handle),
                None => self.attachments.remove(slot),
            },
            ..self
        }
    }

    /// Every attached buffer has a place among `count` buffers.
    pub open spec fn attachments_within(self, count: nat) -> bool {
        forall|slot: u32| #[trigger]
            self.attachments.dom().contains(slot) ==> self.attachments[slot].index() < count
    }
}

/// The states of the buffers of an arena, place by place.
pub open spec fn buffer_states(buffers: Seq<WebGLBuffer>) -> Seq<BufferState> {
    Seq::new(buffers.len(), |i: int| buffers[i]@)
}

/// What moving an attachment point from `outgoing` to `incoming` does to the
/// buffers: the incoming buffer gains its reference first, then the outgoing
/// one loses its own.
pub open spec fn move_reference(
    buffers: Seq<BufferState>,
    outgoing: Option<BufferHandle>,
    incoming: Option<BufferHandle>,
) -> Seq<BufferState> {
    let gained = gain_reference(buffers, incoming);
    match outgoing {
        Some(handle) => gained.update(handle.index(), gained[handle.index()].remove_reference()),
        None => gained,
    }
}

/// The buffers after `incoming`, if any, has gained a reference.
pub open spec fn gain_reference(buffers: Seq<BufferState>, incoming: Option<BufferHandle>) -> Seq<
    BufferState,
> {
    match incoming {
        Some(handle) => buffers.update(handle.index(), buffers[handle.index()].add_reference()),
        None => buffers,
    }
}

/// The command that goes out when an attachment point moves from `outgoing`
/// to `incoming`.
pub open spec fn move_reference_emits(
    buffers: Seq<BufferState>,
    outgoing: Option<BufferHandle>,
    incoming: Option<BufferHandle>,
) -> Option<Command> {
    match outgoing {
        Some(handle) => gain_reference(buffers, incoming)[handle.index()].remove_reference_emits(),
        None => None,
    }
}

/// Whether `incoming`, if any, has a place among `buffers` and room for one
/// more reference.
pub open spec fn can_attach(buffers: Seq<BufferState>, incoming: Option<BufferHandle>) -> bool {
    match incoming {
        Some(handle) => handle.index() < buffers.len() && buffers[handle.index()].references
            < u32::MAX,
        None => true,
    }
}

/// Local shadow of a vertex array object owned by the resource owner.
pub struct WebGLVertexArrayObjectOES {
    id: WebGLVertexArrayId,
    ever_bound: bool,
    is_deleted: bool,
    bound_attrib_buffers: HashMap<u32, BufferHandle>,
    bound_buffer_array: Option<BufferHandle>,
    bound_buffer_element_array: Option<BufferHandle>,
}

impl View for WebGLVertexArrayObjectOES {
    type V = VertexArrayState;

    closed spec fn view(&self) -> VertexArrayState {
        VertexArrayState {
            id: self.id,
            ever_bound: self.ever_bound,
            deleted: self.is_deleted,
            attachments: self.bound_attrib_buffers@,
            bound_buffer_array: self.bound_buffer_array,
            bound_buffer_element_array: self.bound_buffer_element_array,
        }
    }
}

impl WebGLVertexArrayObjectOES {
    /// The shadow of a vertex array that the owner has just created under
    /// `id`.
    pub fn new(id: WebGLVertexArrayId) -> (vao: WebGLVertexArrayObjectOES)
        ensures
            vao@ == VertexArrayState::fresh(id),
    {
        WebGLVertexArrayObjectOES {
            id,
            ever_bound: false,
            is_deleted: false,
            bound_attrib_buffers: HashMap::new(),
            bound_buffer_array: None,
            bound_buffer_element_array: None,
        }
    }

    pub fn id(&self) -> (id: WebGLVertexArrayId)
        ensures
            id == self@.id,
    {
        self.id
    }

    pub fn is_deleted(&self) -> (deleted: bool)
        ensures
            deleted == self@.deleted,
    {
        self.is_deleted
    }

    /// Marks the vertex array deleted, for good. The buffers attached to its
    /// slots keep their references.
    pub fn set_deleted(&mut self)
        ensures
            final(self)@ == (VertexArrayState { deleted: true, ..old(self)@ }),
    {
        self.is_deleted = true;
    }

    pub fn ever_bound(&self) -> (ever_bound: bool)
        ensures
            ever_bound == self@.ever_bound,
    {
        self.ever_bound
    }

    /// Records, for good, that the vertex array has been bound.
    pub fn set_ever_bound(&mut self)
        ensures
            final(self)@ == (VertexArrayState { ever_bound: true, ..old(self)@ }),
    {
        self.ever_bound = true;
    }

    pub fn bound_buffer_array(&self) -> (buffer: Option<BufferHandle>)
        ensures
            buffer == self@.bound_buffer_array,
    {
        self.bound_buffer_array
    }

    pub fn bound_buffer_element_array(&self) -> (buffer: Option<BufferHandle>)
        ensures
            buffer == self@.bound_buffer_element_array,
    {
        self.bound_buffer_element_array
    }

    pub fn set_bound_buffer_array(&mut self, buffer: Option<BufferHandle>)
        ensures
            final(self)@ == (VertexArrayState { bound_buffer_array: buffer, ..old(self)@ }),
    {
        self.bound_buffer_array = buffer;
    }

    pub fn set_bound_buffer_element_array(&mut self, buffer: Option<BufferHandle>)
        ensures
            final(self)@ == (VertexArrayState { bound_buffer_element_array: buffer, ..old(self)@ }),
    {
        self.bound_buffer_element_array = buffer;
    }

    /// The buffer attached to `slot`, if any.
    pub fn attachment(&self, slot: u32) -> (buffer: Option<BufferHandle>)
        ensures
            buffer == self@.attachment(slot),
    {
        match self.bound_attrib_buffers.get(&slot) {
            Some(handle) => Some(*handle),
            None => None,
        }
    }

    /// Attaches `buffer` to `slot`, or detaches what is there. The buffers
    /// live in `buffers`. The incoming buffer gains its reference before the
    /// outgoing one loses its own, so a buffer that is put back into the slot
    /// it already holds never passes through zero references. If the outgoing
    /// buffer loses its last reference while its deletion is asked for, its
    /// delete command is handed back.
    pub fn set_attachment(
        &mut self,
        buffers: &mut Vec<WebGLBuffer>,
        slot: u32,
        buffer: Option<BufferHandle>,
    ) -> (command: Option<WebGLCommand>)
        requires
            old(self)@.attachments_within(old(buffers)@.len()),
            can_attach(buffer_states(old(buffers)@), buffer),
        ensures
            final(self)@ == old(self)@.set_attachment(slot, buffer),
            buffer_states(final(buffers)@) == move_reference(
                buffer_states(old(buffers)@),
                old(self)@.attachment(slot),
                buffer,
            ),
            emitted(command) == move_reference_emits(
                buffer_states(old(buffers)@),
                old(self)@.attachment(slot),
                buffer,
            ),
    {
        let outgoing = match buffer {
            Some(handle) => {
                buffers[handle.0].add_vao_reference();
                self.bound_attrib_buffers.insert(slot, handle)
            },
            None => self.bound_attrib_buffers.remove(&slot),
        };
        match outgoing {
            Some(handle) => buffers[handle.0].remove_vao_reference(),
            None => None,
        }
    }
}

} // verus!
