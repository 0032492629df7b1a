//! The part of a rendering context that resource lifecycle depends on: the
//! arenas that hold buffers and vertex arrays, and the two context-wide
//! buffer bindings.

use vstd::prelude::*;
use crate::attachments::{
    attachment_count, finitely_attached, lemma_count_after_push, lemma_count_after_update,
    lemma_count_zero_iff_unattached, lemma_slots_after_set_attachment,
};
use crate::buffer::{BufferState, WebGLBuffer};
use crate::command::{
    emitted, outcome, Command, WebGLBufferId, WebGLCommand, WebGLResult, WebGLVertexArrayId,
};
use crate::vertex_array::{
    buffer_states, can_attach, move_reference, move_reference_emits, BufferHandle,
    VertexArrayHandle, VertexArrayState, WebGLVertexArrayObjectOES,
};

verus! {

/// Mathematical state of a context.
#[verifier::ext_equal]
pub struct ContextState {
    pub buffers: Seq<BufferState>,
    pub vertex_arrays: Seq<VertexArrayState>,
    /// The buffer currently bound as array buffer.
    pub bound_buffer_array: Option<BufferHandle>,
    /// The buffer currently bound as element array buffer.
    pub bound_buffer_element_array: Option<BufferHandle>,
}

impl ContextState {
    pub open spec fn empty() -> ContextState {
        ContextState {
            buffers: Seq::empty(),
            vertex_arrays: Seq::empty(),
            bound_buffer_array: None,
            bound_buffer_element_array: None,
        }
    }

    /// Validity of a context: every buffer attached to a slot of a vertex
    /// array has a place in the buffer arena, and the reference count of
    /// every buffer is the number of attachment points that hold it.
    pub open spec fn wf(self) -> bool {
        &&& forall|i: int|
            0 <= i < self.vertex_arrays.len() ==> (#[trigger] self.vertex_arrays[i]).attachments_within(
                self.buffers.len(),
            )
        &&& finitely_attached(self.vertex_arrays)
        &&& forall|handle: BufferHandle|
            self.has_buffer(handle) ==> (#[trigger] self.buffer(handle)).references
                == attachment_count(self.vertex_arrays, handle)
    }

    pub open spec fn has_buffer(self, handle: BufferHandle) -> bool {
        handle.index() < self.buffers.len()
    }

    pub open spec fn has_vertex_array(self, handle: VertexArrayHandle) -> bool {
        handle.index() < self.vertex_arrays.len()
    }

    pub open spec fn buffer(self, handle: BufferHandle) -> BufferState {
        self.buffers[handle.index()]
    }

    pub open spec fn vertex_array(self, handle: VertexArrayHandle) -> VertexArrayState {
        self.vertex_arrays[handle.index()]
    }

    /// The context with the buffer at `handle` replaced.
    pub open spec fn with_buffer(self, handle: BufferHandle, buffer: BufferState) -> ContextState {
        ContextState { buffers: self.buffers.update(handle.index(), buffer), ..self }
    }

    /// The context with the vertex array at `handle` replaced.
    pub open spec fn with_vertex_array(
        self,
        handle: VertexArrayHandle,
        vertex_array: VertexArrayState,
    ) -> ContextState {
        ContextState {
            vertex_arrays: self.vertex_arrays.update(handle.index(), vertex_array),
            ..self
        }
    }

    pub open spec fn create_buffer(self, reply: Option<WebGLBufferId>) -> ContextState {
        match reply {
            Some(id) => ContextState { buffers: self.buffers.push(BufferState::fresh(id)), ..self },
            None => self,
        }
    }

    pub open spec fn create_vertex_array(self, reply: Option<WebGLVertexArrayId>) -> ContextState {
        match reply {
            Some(id) => ContextState {
                vertex_arrays: self.vertex_arrays.push(VertexArrayState::fresh(id)),
                ..self
            },
            None => self,
        }
    }

    pub open spec fn set_attachment(
        self,
        vertex_array: VertexArrayHandle,
        slot: u32,
        buffer: Option<BufferHandle>,
    ) -> ContextState {
        ContextState {
            buffers: move_reference(
                self.buffers,
                self.vertex_array(vertex_array).attachment(slot),
                buffer,
            ),
            vertex_arrays: self.vertex_arrays.update(
                vertex_array.index(),
                self.vertex_array(vertex_array).set_attachment(slot, buffer),
            ),
            ..self
        }
    }

    pub open spec fn set_attachment_emits(
        self,
        vertex_array: VertexArrayHandle,
        slot: u32,
        buffer: Option<BufferHandle>,
    ) -> Option<Command> {
        move_reference_emits(self.buffers, self.vertex_array(vertex_array).attachment(slot), buffer)
    }

    /// The context after the two current buffer bindings have been copied
    /// into the snapshot of `vertex_array`.
    pub open spec fn save_bindings(self, vertex_array: VertexArrayHandle) -> ContextState {
        self.with_vertex_array(
            vertex_array,
            VertexArrayState {
                bound_buffer_array: self.bound_buffer_array,
                bound_buffer_element_array: self.bound_buffer_element_array,
                ..self.vertex_array(vertex_array)
            },
        )
    }

    /// The context after the snapshot of `vertex_array` has become the two
    /// current buffer bindings.
    pub open spec fn restore_bindings(self, vertex_array: VertexArrayHandle) -> ContextState {
        ContextState {
            bound_buffer_array: self.vertex_array(vertex_array).bound_buffer_array,
            bound_buffer_element_array: self.vertex_array(vertex_array).bound_buffer_element_array,
            ..self
        }
    }

    pub open spec fn bind_buffer(self, handle: BufferHandle, target: u32) -> ContextState {
        self.with_buffer(handle, self.buffer(handle).bind(target))
    }

    pub open spec fn buffer_data(self, handle: BufferHandle, target: u32, data: Seq<u8>) -> ContextState {
        self.with_buffer(handle, self.buffer(handle).buffer_data(target, data))
    }

    pub open spec fn delete_buffer(self, handle: BufferHandle) -> ContextState {
        self.with_buffer(handle, self.buffer(handle).delete())
    }

    /// The context with both current buffer bindings cleared.
    pub open spec fn clear_bindings(self) -> ContextState {
        ContextState { bound_buffer_array: None, bound_buffer_element_array: None, ..self }
    }
}

/// The states of the vertex arrays of an arena, place by place.
pub open spec fn vertex_array_states(vertex_arrays: Seq<WebGLVertexArrayObjectOES>) -> Seq<
    VertexArrayState,
> {
    Seq::new(vertex_arrays.len(), |i: int| vertex_arrays[i]@)
}

/// Owner of the local shadows of buffers and vertex arrays, and of the two
/// context-wide buffer bindings. Resources are referred to by handles; a
/// handle stays valid for the life of the context.
pub struct WebGLRenderingContext {
    buffers: Vec<WebGLBuffer>,
    vertex_arrays: Vec<WebGLVertexArrayObjectOES>,
    bound_buffer_array: Option<BufferHandle>,
    bound_buffer_element_array: Option<BufferHandle>,
}

impl View for WebGLRenderingContext {
    type V = ContextState;

    closed spec fn view(&self) -> ContextState {
        ContextState {
            buffers: buffer_states(self.buffers@),
            vertex_arrays: vertex_array_states(self.vertex_arrays@),
            bound_buffer_array: self.bound_buffer_array,
            bound_buffer_element_array: self.bound_buffer_element_array,
        }
    }
}

impl WebGLRenderingContext {
    /// A context without resources and with nothing bound.
    pub fn new() -> (context: WebGLRenderingContext)
        ensures
            context@ == ContextState::empty(),
            context@.wf(),
    {
        let context = WebGLRenderingContext {
            buffers: Vec::new(),
            vertex_arrays: Vec::new(),
            bound_buffer_array: None,
            bound_buffer_element_array: None,
        };
        context
    }

    /// Whether `handle` refers to a buffer of this context.
    pub fn has_buffer(&self, handle: BufferHandle) -> (found: bool)
        ensures
            found == self@.has_buffer(handle),
    {
        handle.0 < self.buffers.len()
    }

    /// Whether `handle` refers to a vertex array of this context.
    pub fn has_vertex_array(&self, handle: VertexArrayHandle) -> (found: bool)
        ensures
            found == self@.has_vertex_array(handle),
    {
        handle.0 < self.vertex_arrays.len()
    }

    pub fn buffer(&self, handle: BufferHandle) -> (buffer: &WebGLBuffer)
        requires
            self@.has_buffer(handle),
        ensures
            buffer@ == self@.buffer(handle),
    {
        &self.buffers[handle.0]
    }

    pub fn vertex_array(&self, handle: VertexArrayHandle) -> (vertex_array:
        &WebGLVertexArrayObjectOES)
        requires
            self@.has_vertex_array(handle),
        ensures
            vertex_array@ == self@.vertex_array(handle),
    {
        &self.vertex_arrays[handle.0]
    }

    /// Takes the owner's reply to a buffer creation request. With an id, a
    /// fresh buffer enters the arena and its handle is returned; without
    /// one, creation has failed and nothing changes.
    pub fn create_buffer(&mut self, reply: Option<WebGLBufferId>) -> (handle: Option<BufferHandle>)
        ensures
            old(self)@.wf() ==> final(self)@.wf(),
            final(self)@ == old(self)@.create_buffer(reply),
            reply is None ==> handle is None,
            reply is Some ==> handle is Some && handle->0.index() == old(self)@.buffers.len(),
    {
        match WebGLBuffer::maybe_new(reply) {
            Some(buffer) => {
                let handle = BufferHandle(self.buffers.len());
                self.buffers.push(buffer);
                proof {
                    assert(self@ == old(self)@.create_buffer(reply));
                    if old(self)@.wf() {
                        lemma_create_buffer_keeps_wf(old(self)@, reply);
                    }
                }
                Some(handle)
            },
            None => None,
        }
    }

    /// Takes the owner's reply to a vertex array creation request. With an
    /// id, a fresh vertex array enters the arena and its handle is returned;
    /// without one, creation has failed and nothing changes.
    pub fn create_vertex_array(&mut self, reply: Option<WebGLVertexArrayId>) -> (handle: Option<
        VertexArrayHandle,
    >)
        ensures
            old(self)@.wf() ==> final(self)@.wf(),
            final(self)@ == old(self)@.create_vertex_array(reply),
            reply is None ==> handle is None,
            reply is Some ==> handle is Some && handle->0.index() == old(
                self,
            )@.vertex_arrays.len(),
    {
        match reply {
            Some(id) => {
                let handle = VertexArrayHandle(self.vertex_arrays.len());
                self.vertex_arrays.push(WebGLVertexArrayObjectOES::new(id));
                proof {
                    assert(self@ == old(self)@.create_vertex_array(reply));
                    if old(self)@.wf() {
                        lemma_create_vertex_array_keeps_wf(old(self)@, reply);
                    }
                }
                Some(handle)
            },
            None => None,
        }
    }

    pub fn bound_buffer_array(&self) -> (buffer: Option<BufferHandle>)
        ensures
            buffer == self@.bound_buffer_array,
    {
        self.bound_buffer_array
    }

    pub fn bound_buffer_element_array(&self) -> (buffer: Option<BufferHandle>)
        ensures
            buffer == self@.bound_buffer_element_array,
    {
        self.bound_buffer_element_array
    }

    pub fn set_bound_buffer_array(&mut self, buffer: Option<BufferHandle>)
        ensures
            final(self)@ == (ContextState { bound_buffer_array: buffer, ..old(self)@ }),
            old(self)@.wf() ==> final(self)@.wf(),
    {
        self.bound_buffer_array = buffer;
        proof {
            if old(self)@.wf() {
                lemma_wf_ignores_bindings(old(self)@, self@);
            }
        }
    }

    pub fn set_bound_buffer_element_array(&mut self, buffer: Option<BufferHandle>)
        ensures
            final(self)@ == (ContextState { bound_buffer_element_array: buffer, ..old(self)@ }),
            old(self)@.wf() ==> final(self)@.wf(),
    {
        self.bound_buffer_element_array = buffer;
        proof {
            if old(self)@.wf() {
                lemma_wf_ignores_bindings(old(self)@, self@);
            }
        }
    }

    /// Binds the buffer at `handle` to `target`; see [`WebGLBuffer::bind`].
    pub fn bind_buffer(&mut self, handle: BufferHandle, target: u32) -> (result: WebGLResult<
        WebGLCommand,
    >)
        requires
            old(self)@.has_buffer(handle),
        ensures
            final(self)@ == old(self)@.bind_buffer(handle, target),
            outcome(result) == old(self)@.buffer(handle).bind_result(target),
            old(self)@.wf() ==> final(self)@.wf(),
    {
        let result = self.buffers[handle.0].bind(target);
        proof {
            assert(self@ == old(self)@.bind_buffer(handle, target));
            if old(self)@.wf() {
                lemma_with_buffer_keeps_wf(
                    old(self)@,
                    handle,
                    old(self)@.buffer(handle).bind(target),
                );
            }
        }
        result
    }

    /// Uploads `data` to the buffer at `handle` through `target`; see
    /// [`WebGLBuffer::buffer_data`].
    pub fn buffer_data(&mut self, handle: BufferHandle, target: u32, data: &[u8], usage: u32) -> (result:
        WebGLResult<WebGLCommand>)
        requires
            old(self)@.has_buffer(handle),
        ensures
            final(self)@ == old(self)@.buffer_data(handle, target, data@),
            outcome(result) == old(self)@.buffer(handle).buffer_data_result(target, data@, usage),
            old(self)@.wf() ==> final(self)@.wf(),
    {
        let result = self.buffers[handle.0].buffer_data(target, data, usage);
        proof {
            assert(self@ == old(self)@.buffer_data(handle, target, data@));
            if old(self)@.wf() {
                lemma_with_buffer_keeps_wf(
                    old(self)@,
                    handle,
                    old(self)@.buffer(handle).buffer_data(target, data@),
                );
            }
        }
        result
    }

    /// Asks for the deletion of the buffer at `handle`; see
    /// [`WebGLBuffer::delete`].
    pub fn delete_buffer(&mut self, handle: BufferHandle) -> (command: Option<WebGLCommand>)
        requires
            old(self)@.has_buffer(handle),
        ensures
            final(self)@ == old(self)@.delete_buffer(handle),
            emitted(command) == old(self)@.buffer(handle).delete_emits(),
            old(self)@.wf() ==> final(self)@.wf(),
    {
        let command = self.buffers[handle.0].delete();
        proof {
            assert(self@ == old(self)@.delete_buffer(handle));
            if old(self)@.wf() {
                lemma_with_buffer_keeps_wf(old(self)@, handle, old(self)@.buffer(handle).delete());
            }
        }
        command
    }

    /// Whether `buffer`, if any, can be attached to a slot: it must be a
    /// buffer of this context whose reference count has room for one more.
    pub fn can_attach(&self, buffer: Option<BufferHandle>) -> (possible: bool)
        ensures
            possible == can_attach(self@.buffers, buffer),
    {
        match buffer {
            Some(handle) => handle.0 < self.buffers.len() && self.buffers[handle.0].vao_references()
                < u32::MAX,
            None => true,
        }
    }

    /// Attaches `buffer` to `slot` of the vertex array at `vertex_array`, or
    /// detaches what is there; see
    /// [`WebGLVertexArrayObjectOES::set_attachment`].
    pub fn set_attachment(
        &mut self,
        vertex_array: VertexArrayHandle,
        slot: u32,
        buffer: Option<BufferHandle>,
    ) -> (command: Option<WebGLCommand>)
        requires
            old(self)@.wf(),
            old(self)@.has_vertex_array(vertex_array),
            can_attach(old(self)@.buffers, buffer),
        ensures
            final(self)@.wf(),
            final(self)@ == old(self)@.set_attachment(vertex_array, slot, buffer),
            emitted(command) == old(self)@.set_attachment_emits(vertex_array, slot, buffer),
    {
        let command = self.vertex_arrays[vertex_array.0].set_attachment(
            &mut self.buffers,
            slot,
            buffer,
        );
        proof {
            assert(self@ == old(self)@.set_attachment(vertex_array, slot, buffer));
            lemma_set_attachment_keeps_wf(old(self)@, vertex_array, slot, buffer);
        }
        command
    }

    /// Copies the two current buffer bindings into the snapshot of the
    /// vertex array at `vertex_array`.
    pub(crate) fn save_bindings(&mut self, vertex_array: VertexArrayHandle)
        requires
            old(self)@.has_vertex_array(vertex_array),
        ensures
            final(self)@ == old(self)@.save_bindings(vertex_array),
            old(self)@.wf() ==> final(self)@.wf(),
    {
        let array = self.bound_buffer_array;
        let element_array = self.bound_buffer_element_array;
        self.vertex_arrays[vertex_array.0].set_bound_buffer_array(array);
        self.vertex_arrays[vertex_array.0].set_bound_buffer_element_array(element_array);
        proof {
            assert(self@ == old(self)@.save_bindings(vertex_array));
            if old(self)@.wf() {
                lemma_with_vertex_array_keeps_wf(
                    old(self)@,
                    vertex_array,
                    self@.vertex_array(vertex_array),
                );
            }
        }
    }

    /// Makes the snapshot of the vertex array at `vertex_array` the two
    /// current buffer bindings.
    pub(crate) fn restore_bindings(&mut self, vertex_array: VertexArrayHandle)
        requires
            old(self)@.has_vertex_array(vertex_array),
        ensures
            final(self)@ == old(self)@.restore_bindings(vertex_array),
            old(self)@.wf() ==> final(self)@.wf(),
    {
        self.bound_buffer_array = self.vertex_arrays[vertex_array.0].bound_buffer_array();
        self.bound_buffer_element_array =
        self.vertex_arrays[vertex_array.0].bound_buffer_element_array();
        proof {
            if old(self)@.wf() {
                lemma_wf_ignores_bindings(old(self)@, self@);
            }
        }
    }

    /// Records that the vertex array at `vertex_array` has been bound.
    pub(crate) fn set_vertex_array_ever_bound(&mut self, vertex_array: VertexArrayHandle)
        requires
            old(self)@.has_vertex_array(vertex_array),
        ensures
            final(self)@ == old(self)@.with_vertex_array(
                vertex_array,
                VertexArrayState { ever_bound: true, ..old(self)@.vertex_array(vertex_array) },
            ),
            old(self)@.wf() ==> final(self)@.wf(),
    {
        self.vertex_arrays[vertex_array.0].set_ever_bound();
        proof {
            assert(self@ == old(self)@.with_vertex_array(
                vertex_array,
                VertexArrayState { ever_bound: true, ..old(self)@.vertex_array(vertex_array) },
            ));
            if old(self)@.wf() {
                lemma_with_vertex_array_keeps_wf(
                    old(self)@,
                    vertex_array,
                    self@.vertex_array(vertex_array),
                );
            }
        }
    }

    /// Marks the vertex array at `vertex_array` deleted.
    pub(crate) fn set_vertex_array_deleted(&mut self, vertex_array: VertexArrayHandle)
        requires
            old(self)@.has_vertex_array(vertex_array),
        ensures
            final(self)@ == old(self)@.with_vertex_array(
                vertex_array,
                VertexArrayState { deleted: true, ..old(self)@.vertex_array(vertex_array) },
            ),
            old(self)@.wf() ==> final(self)@.wf(),
    {
        self.vertex_arrays[vertex_array.0].set_deleted();
        proof {
            assert(self@ == old(self)@.with_vertex_array(
                vertex_array,
                VertexArrayState { deleted: true, ..old(self)@.vertex_array(vertex_array) },
            ));
            if old(self)@.wf() {
                lemma_with_vertex_array_keeps_wf(
                    old(self)@,
                    vertex_array,
                    self@.vertex_array(vertex_array),
                );
            }
        }
    }
}

/// Validity does not depend on what is bound: two contexts with the same
/// buffers and vertex arrays are valid together.
pub proof fn lemma_wf_ignores_bindings(context: ContextState, other: ContextState)
    requires
        context.wf(),
        other.buffers == context.buffers,
        other.vertex_arrays == context.vertex_arrays,
    ensures
        other.wf(),
{
    assert forall|handle: BufferHandle| other.has_buffer(handle) implies (#[trigger] other.buffer(
        handle,
    )).references == attachment_count(other.vertex_arrays, handle) by {
        assert(context.buffer(handle).references == attachment_count(
            context.vertex_arrays,
            handle,
        ));
    }
}

/// A context stays valid when a fresh buffer joins it.
pub proof fn lemma_create_buffer_keeps_wf(context: ContextState, reply: Option<WebGLBufferId>)
    requires
        context.wf(),
        context.buffers.len() <= usize::MAX,
    ensures
        context.create_buffer(reply).wf(),
{
    if reply is Some {
        let after = context.create_buffer(reply);
        let joined = BufferHandle(context.buffers.len() as usize);
        lemma_count_zero_iff_unattached(context.vertex_arrays, joined);
        assert forall|handle: BufferHandle| after.has_buffer(handle) implies (
        #[trigger] after.buffer(handle)).references == attachment_count(
            after.vertex_arrays,
            handle,
        ) by {
            if handle != joined {
                assert(after.buffer(handle) == context.buffer(handle));
            }
        }
    }
}

/// A context stays valid when a fresh vertex array joins it.
pub proof fn lemma_create_vertex_array_keeps_wf(
    context: ContextState,
    reply: Option<WebGLVertexArrayId>,
)
    requires
        context.wf(),
    ensures
        context.create_vertex_array(reply).wf(),
{
    if reply is Some {
        let after = context.create_vertex_array(reply);
        let fresh = VertexArrayState::fresh(reply->0);
        assert forall|handle: BufferHandle| after.has_buffer(handle) implies (
        #[trigger] after.buffer(handle)).references == attachment_count(
            after.vertex_arrays,
            handle,
        ) by {
            lemma_count_after_push(context.vertex_arrays, fresh, handle);
            assert(fresh.slots_of(handle) =~= Set::empty());
            assert(after.buffer(handle) == context.buffer(handle));
        }
    }
}

/// A context stays valid when one of its buffers changes in anything but its
/// reference count.
pub proof fn lemma_with_buffer_keeps_wf(
    context: ContextState,
    handle: BufferHandle,
    buffer: BufferState,
)
    requires
        context.wf(),
        context.has_buffer(handle),
        buffer.references == context.buffer(handle).references,
    ensures
        context.with_buffer(handle, buffer).wf(),
{
    let after = context.with_buffer(handle, buffer);
    assert forall|other: BufferHandle| after.has_buffer(other) implies (#[trigger] after.buffer(
        other,
    )).references == attachment_count(after.vertex_arrays, other) by {
        assert(context.buffer(other).references == attachment_count(context.vertex_arrays, other));
    }
}

/// A context stays valid when one of its vertex arrays changes in anything
/// but its attachments.
pub proof fn lemma_with_vertex_array_keeps_wf(
    context: ContextState,
    handle: VertexArrayHandle,
    vertex_array: VertexArrayState,
)
    requires
        context.wf(),
        context.has_vertex_array(handle),
        vertex_array.attachments == context.vertex_array(handle).attachments,
    ensures
        context.with_vertex_array(handle, vertex_array).wf(),
{
    let after = context.with_vertex_array(handle, vertex_array);
    assert forall|buffer: BufferHandle| after.has_buffer(buffer) implies (#[trigger] after.buffer(
        buffer,
    )).references == attachment_count(after.vertex_arrays, buffer) by {
        lemma_count_after_update(context.vertex_arrays, handle.index(), vertex_array, buffer);
        assert(vertex_array.slots_of(buffer) =~= context.vertex_array(handle).slots_of(buffer));
        assert(context.buffer(buffer).references == attachment_count(
            context.vertex_arrays,
            buffer,
        ));
    }
    assert forall|i: int| 0 <= i < after.vertex_arrays.len() implies (
    #[trigger] after.vertex_arrays[i]).attachments_within(after.buffers.len()) by {
        if i != handle.index() {
            assert(after.vertex_arrays[i] == context.vertex_arrays[i]);
        } else {
            assert(context.vertex_arrays[i].attachments_within(context.buffers.len()));
        }
    }
    assert forall|i: int| 0 <= i < after.vertex_arrays.len() implies (
    #[trigger] after.vertex_arrays[i]).attachments.dom().finite() by {
        if i != handle.index() {
            assert(after.vertex_arrays[i] == context.vertex_arrays[i]);
        } else {
            assert(context.vertex_arrays[i].attachments.dom().finite());
        }
    }
}

/// A context stays valid when an attachment changes: the reference counts
/// follow the attachment points.
pub proof fn lemma_set_attachment_keeps_wf(
    context: ContextState,
    vertex_array: VertexArrayHandle,
    slot: u32,
    buffer: Option<BufferHandle>,
)
    requires
        context.wf(),
        context.has_vertex_array(vertex_array),
        can_attach(context.buffers, buffer),
    ensures
        context.set_attachment(vertex_array, slot, buffer).wf(),
{
    let after = context.set_attachment(vertex_array, slot, buffer);
    let before_array = context.vertex_array(vertex_array);
    let after_array = before_array.set_attachment(slot, buffer);
    let outgoing = before_array.attachment(slot);
    assert(context.vertex_arrays[vertex_array.index()].attachments_within(context.buffers.len()));
    assert(context.vertex_arrays[vertex_array.index()].attachments.dom().finite());
    assert forall|handle: BufferHandle| after.has_buffer(handle) implies (#[trigger] after.buffer(
        handle,
    )).references == attachment_count(after.vertex_arrays, handle) by {
        lemma_count_after_update(context.vertex_arrays, vertex_array.index(), after_array, handle);
        lemma_slots_after_set_attachment(before_array, slot, buffer, handle);
        assert(context.buffer(handle).references == attachment_count(
            context.vertex_arrays,
            handle,
        ));
        if outgoing == Some(handle) {
            // The slot holds the buffer, so the buffer has a reference to lose.
            lemma_count_after_update(
                context.vertex_arrays,
                vertex_array.index(),
                before_array,
                handle,
            );
            assert(context.vertex_arrays.update(vertex_array.index(), before_array)
                =~= context.vertex_arrays);
            lemma_count_at_least_slots(context.vertex_arrays, vertex_array.index(), handle);
        }
    }
    assert forall|i: int| 0 <= i < after.vertex_arrays.len() implies (
    #[trigger] after.vertex_arrays[i]).attachments_within(after.buffers.len()) by {
        if i != vertex_array.index() {
            assert(after.vertex_arrays[i] == context.vertex_arrays[i]);
            assert(context.vertex_arrays[i].attachments_within(context.buffers.len()));
        }
    }
    assert forall|i: int| 0 <= i < after.vertex_arrays.len() implies (
    #[trigger] after.vertex_arrays[i]).attachments.dom().finite() by {
        if i != vertex_array.index() {
            assert(after.vertex_arrays[i] == context.vertex_arrays[i]);
            assert(context.vertex_arrays[i].attachments.dom().finite());
        }
    }
}

/// A buffer of a valid context counts as deleted exactly when its deletion
/// was asked for and no slot of any vertex array holds it.
pub proof fn lemma_deleted_iff_requested_and_unattached(context: ContextState, buffer: BufferHandle)
    requires
        context.wf(),
        context.has_buffer(buffer),
    ensures
        context.buffer(buffer).is_deleted() <==> context.buffer(buffer).deletion_requested
            && forall|i: int, slot: u32|
            0 <= i < context.vertex_arrays.len() ==> (#[trigger] context.vertex_arrays[i].attachment(
                slot,
            )) != Some(buffer),
{
    lemma_count_zero_iff_unattached(context.vertex_arrays, buffer);
}

/// Detaching the buffer that a slot holds takes one reference from it. Its
/// delete command goes out exactly if that was the last reference and the
/// deletion of the buffer was asked for, which is when the buffer comes to
/// count as deleted.
pub proof fn lemma_detach_releases_at_last_reference(
    context: ContextState,
    vertex_array: VertexArrayHandle,
    slot: u32,
)
    requires
        context.wf(),
        context.has_vertex_array(vertex_array),
        context.vertex_array(vertex_array).attachment(slot) is Some,
    ensures
        ({
            let buffer = context.vertex_array(vertex_array).attachment(slot)->0;
            let after = context.set_attachment(vertex_array, slot, None);
            &&& context.has_buffer(buffer)
            &&& !context.buffer(buffer).is_deleted()
            &&& after.buffer(buffer) == context.buffer(buffer).remove_reference()
            &&& after.buffer(buffer).references == context.buffer(buffer).references - 1
            &&& context.set_attachment_emits(vertex_array, slot, None) == if after.buffer(
                buffer,
            ).is_deleted() {
                Some(Command::DeleteBuffer(context.buffer(buffer).id))
            } else {
                None
            }
        }),
{
    let buffer = context.vertex_array(vertex_array).attachment(slot)->0;
    assert(context.vertex_arrays[vertex_array.index()].attachments_within(context.buffers.len()));
    assert(context.vertex_arrays[vertex_array.index()].attachments.dom().finite());
    lemma_slots_after_set_attachment(context.vertex_array(vertex_array), slot, None, buffer);
    lemma_count_at_least_slots(context.vertex_arrays, vertex_array.index(), buffer);
    assert(context.buffer(buffer).references == attachment_count(context.vertex_arrays, buffer));
}

/// A released buffer stays released. Once a buffer of a valid context
/// counts as deleted, no change of an attachment that does not attach this
/// very buffer touches it, and none sends a command on its behalf: the
/// buffer that such a change lets go of is another one.
pub proof fn lemma_released_buffer_stays_released(
    context: ContextState,
    buffer: BufferHandle,
    vertex_array: VertexArrayHandle,
    slot: u32,
    incoming: Option<BufferHandle>,
)
    requires
        context.wf(),
        context.has_buffer(buffer),
        context.buffer(buffer).is_deleted(),
        context.has_vertex_array(vertex_array),
        can_attach(context.buffers, incoming),
        incoming != Some(buffer),
    ensures
        context.vertex_array(vertex_array).attachment(slot) != Some(buffer),
        context.set_attachment(vertex_array, slot, incoming).buffer(buffer) == context.buffer(
            buffer,
        ),
        context.set_attachment(vertex_array, slot, incoming).buffer(buffer).is_deleted(),
{
    lemma_deleted_iff_requested_and_unattached(context, buffer);
    assert(context.vertex_arrays[vertex_array.index()].attachment(slot) != Some(buffer));
    assert(context.vertex_arrays[vertex_array.index()].attachments_within(context.buffers.len()));
}

/// Putting a buffer into the slot that already holds it changes no
/// reference count and sends nothing, also when the deletion of the buffer
/// is asked for and this slot is its last attachment point.
pub proof fn lemma_reattaching_is_silent(
    context: ContextState,
    vertex_array: VertexArrayHandle,
    slot: u32,
)
    requires
        context.wf(),
        context.has_vertex_array(vertex_array),
        context.vertex_array(vertex_array).attachment(slot) is Some,
    ensures
        ({
            let held = context.vertex_array(vertex_array).attachment(slot);
            &&& context.set_attachment(vertex_array, slot, held) == context
            &&& context.set_attachment_emits(vertex_array, slot, held) is None
        }),
{
    let held = context.vertex_array(vertex_array).attachment(slot);
    let buffer = held->0;
    let after = context.set_attachment(vertex_array, slot, held);
    assert(context.vertex_arrays[vertex_array.index()].attachments_within(context.buffers.len()));
    assert(context.vertex_arrays[vertex_array.index()].attachments.dom().finite());
    lemma_slots_after_set_attachment(context.vertex_array(vertex_array), slot, None, buffer);
    lemma_count_at_least_slots(context.vertex_arrays, vertex_array.index(), buffer);
    assert(context.buffer(buffer).references == attachment_count(context.vertex_arrays, buffer));
    assert(after.buffers =~= context.buffers);
    assert(after.vertex_arrays[vertex_array.index()].attachments
        =~= context.vertex_arrays[vertex_array.index()].attachments);
    assert(after.vertex_arrays =~= context.vertex_arrays);
}

/// The count over a list is at least what one of its vertex arrays holds.
proof fn lemma_count_at_least_slots(
    vertex_arrays: Seq<VertexArrayState>,
    position: int,
    buffer: BufferHandle,
)
    requires
        0 <= position < vertex_arrays.len(),
    ensures
        attachment_count(vertex_arrays, buffer) >= vertex_arrays[position].slots_of(buffer).len(),
    decreases vertex_arrays.len(),
{
    if position < vertex_arrays.len() - 1 {
        lemma_count_at_least_slots(vertex_arrays.drop_last(), position, buffer);
    }
}

} // verus!
