//! A buffer object: binding target, capacity, and deferred deletion gated by
//! the number of vertex array attachment points that still refer to it.

use vstd::prelude::*;
use vstd::slice::slice_to_vec;
use crate::command::{
    emitted, outcome, sent, Command, WebGLBufferId, WebGLCommand, WebGLError, WebGLResult,
};

verus! {

/// Mathematical state of a buffer.
pub struct BufferState {
    pub id: WebGLBufferId,
    /// The target of the first bind; fixed from then on.
    pub target: Option<u32>,
    /// Byte length of the last upload.
    pub capacity: nat,
    /// Whether deletion has been asked for.
    pub deletion_requested: bool,
    /// Number of attachment points that refer to the buffer.
    pub references: nat,
}

impl BufferState {
    /// A buffer as it is right after creation.
    pub open spec fn fresh(id: WebGLBufferId) -> BufferState {
        BufferState { id, target: None, capacity: 0, deletion_requested: false, references: 0 }
    }

    /// Deleted as seen by callers: deletion was asked for and nothing refers
    /// to the buffer any more.
    pub open spec fn is_deleted(self) -> bool {
        self.deletion_requested && self.references == 0
    }

    /// Whether `target` agrees with the target fixed by the first bind.
    pub open spec fn accepts_target(self, target: u32) -> bool {
        self.target is None || self.target == Some(target)
    }

    pub open spec fn bind(self, target: u32) -> BufferState {
        if self.accepts_target(target) {
            BufferState { target: Some(target), ..self }
        } else {
            self
        }
    }

    pub open spec fn bind_result(self, target: u32) -> Result<Command, WebGLError> {
        if self.accepts_target(target) {
            Ok(Command::BindBuffer(target, Some(self.id)))
        } else {
            Err(WebGLError::InvalidOperation)
        }
    }

    pub open spec fn buffer_data(self, target: u32, data: Seq<u8>) -> BufferState {
        if self.accepts_target(target) {
            BufferState { capacity: data.len(), ..self }
        } else {
            self
        }
    }

    pub open spec fn buffer_data_result(self, target: u32, data: Seq<u8>, usage: u32) -> Result<
        Command,
        WebGLError,
    > {
        if self.accepts_target(target) {
            Ok(Command::BufferData(target, data, usage))
        } else {
            Err(WebGLError::InvalidOperation)
        }
    }

    pub open spec fn delete(self) -> BufferState {
        BufferState { deletion_requested: true, ..self }
    }

    /// The delete command goes out at once only if nothing refers to the
    /// buffer and deletion was not asked for before.
    pub open spec fn delete_emits(self) -> Option<Command> {
        if self.references == 0 && !self.deletion_requested {
            Some(Command::DeleteBuffer(self.id))
        } else {
            None
        }
    }

    pub open spec fn add_reference(self) -> BufferState {
        BufferState { references: self.references + 1, ..self }
    }

    pub open spec fn remove_reference(self) -> BufferState {
        if self.references > 0 {
            BufferState { references: (self.references - 1) as nat, ..self }
        } else {
            self
        }
    }

    /// Dropping the last reference of a buffer whose deletion was asked for
    /// releases it.
    pub open spec fn remove_reference_emits(self) -> Option<Command> {
        if self.references == 1 && self.deletion_requested {
            Some(Command::DeleteBuffer(self.id))
        } else {
            None
        }
    }
}

/// Local shadow of a buffer owned by the resource owner.
pub struct WebGLBuffer {
    id: WebGLBufferId,
    target: Option<u32>,
    capacity: usize,
    is_deleted: bool,
    vao_references: u32,
}

impl View for WebGLBuffer {
    type V = BufferState;

    closed spec fn view(&self) -> BufferState {
        BufferState {
            id: self.id,
            target: self.target,
            capacity: self.capacity as nat,
            deletion_requested: self.is_deleted,
            references: self.vao_references as nat,
        }
    }
}

impl WebGLBuffer {
    /// The shadow of a buffer that the owner has just created under `id`.
    pub fn new(id: WebGLBufferId) -> (buffer: WebGLBuffer)
        ensures
            buffer@ == BufferState::fresh(id),
    {
        WebGLBuffer { id, target: None, capacity: 0, is_deleted: false, vao_references: 0 }
    }

    /// Turns the owner's reply to a creation request into a buffer. The
    /// owner answers with no id when it could not allocate one.
    pub fn maybe_new(reply: Option<WebGLBufferId>) -> (buffer: Option<WebGLBuffer>)
        ensures
            reply is None ==> buffer is None,
            reply is Some ==> buffer is Some && buffer->0@ == BufferState::fresh(reply->0),
    {
        match reply {
            Some(id) => Some(WebGLBuffer::new(id)),
            None => None,
        }
    }

    pub fn id(&self) -> (id: WebGLBufferId)
        ensures
            id == self@.id,
    {
        self.id
    }

    /// Binds the buffer to `target`. The first bind fixes the target; a bind
    /// to another target is refused and changes nothing. An accepted bind
    /// always yields the bind command, also when the target was fixed before.
    pub fn bind(&mut self, target: u32) -> (result: WebGLResult<WebGLCommand>)
        ensures
            final(self)@ == old(self)@.bind(target),
            outcome(result) == old(self)@.bind_result(target),
    {
        match self.target {
            Some(previous_target) => {
                if target != previous_target {
                    return Err(WebGLError::InvalidOperation);
                }
            },
            None => {
                self.target = Some(target);
            },
        }
        Ok(WebGLCommand::BindBuffer(target, Some(self.id)))
    }

    /// Uploads `data` through `target`. A target other than the fixed one is
    /// refused. Otherwise the capacity becomes the length of `data` and the
    /// command carries a copy of it.
    pub fn buffer_data(&mut self, target: u32, data: &[u8], usage: u32) -> (result: WebGLResult<
        WebGLCommand,
    >)
        ensures
            final(self)@ == old(self)@.buffer_data(target, data@),
            outcome(result) == old(self)@.buffer_data_result(target, data@, usage),
    {
        if let Some(previous_target) = self.target {
            if target != previous_target {
                return Err(WebGLError::InvalidOperation);
            }
        }
        self.capacity = data.len();
        Ok(WebGLCommand::BufferData(target, slice_to_vec(data), usage))
    }

    pub fn capacity(&self) -> (capacity: usize)
        ensures
            capacity == self@.capacity,
    {
        self.capacity
    }

    /// Asks for deletion. While attachment points refer to the buffer the
    /// request is only recorded; the command goes out when the last of them
    /// lets go. Asking again has no effect.
    pub fn delete(&mut self) -> (command: Option<WebGLCommand>)
        ensures
            final(self)@ == old(self)@.delete(),
            emitted(command) == old(self)@.delete_emits(),
    {
        if self.vao_references > 0 {
            self.is_deleted = true;
        }
        if !self.is_deleted {
            self.is_deleted = true;
            Some(WebGLCommand::DeleteBuffer(self.id))
        } else {
            None
        }
    }

    pub fn is_deleted(&self) -> (deleted: bool)
        ensures
            deleted == self@.is_deleted(),
    {
        self.is_deleted && self.vao_references == 0
    }

    pub fn target(&self) -> (target: Option<u32>)
        ensures
            target == self@.target,
    {
        self.target
    }

    /// The number of attachment points that refer to the buffer.
    pub fn vao_references(&self) -> (references: u32)
        ensures
            references == self@.references,
    {
        self.vao_references
    }

    /// Counts one more attachment point.
    pub fn add_vao_reference(&mut self)
        requires
            old(self)@.references < u32::MAX,
        ensures
            final(self)@ == old(self)@.add_reference(),
    {
        self.vao_references = self.vao_references + 1;
    }

    /// Counts one attachment point less; without any, nothing happens. When
    /// the last one goes and deletion was asked for, the delete command goes
    /// out now.
    pub fn remove_vao_reference(&mut self) -> (command: Option<WebGLCommand>)
        ensures
            final(self)@ == old(self)@.remove_reference(),
            emitted(command) == old(self)@.remove_reference_emits(),
    {
        let n: u32 = self.vao_references;
        if n > 0 {
            self.vao_references = n - 1;
            if self.is_deleted && n == 1 {
                return Some(WebGLCommand::DeleteBuffer(self.id));
            }
        }
        None
    }
}

impl BufferState {
    /// The state after `n` more attachment points have come to refer to the
    /// buffer, one after another.
    pub open spec fn add_references(self, n: nat) -> BufferState
        decreases n,
    {
        if n == 0 {
            self
        } else {
            self.add_reference().add_references((n - 1) as nat)
        }
    }

    /// The state after `n` attachment points have let go, one after another.
    pub open spec fn remove_references(self, n: nat) -> BufferState
        decreases n,
    {
        if n == 0 {
            self
        } else {
            self.remove_reference().remove_references((n - 1) as nat)
        }
    }

    /// The commands that go out while `n` attachment points let go, in order.
    pub open spec fn remove_references_emit(self, n: nat) -> Seq<Command>
        decreases n,
    {
        if n == 0 {
            Seq::empty()
        } else {
            sent(self.remove_reference_emits()) + self.remove_reference().remove_references_emit(
                (n - 1) as nat,
            )
        }
    }
}

/// Binding again to the target that an earlier bind fixed succeeds, forwards
/// the bind command, and changes nothing.
pub proof fn lemma_rebind_same_target(buffer: BufferState, target: u32)
    requires
        buffer.accepts_target(target),
    ensures
        buffer.bind(target).bind(target) == buffer.bind(target),
        buffer.bind(target).bind_result(target) == Ok::<Command, WebGLError>(
            Command::BindBuffer(target, Some(buffer.id)),
        ),
{
}

/// Once a target is fixed, a bind or an upload through any other target is
/// refused: no command goes out and the buffer is unchanged.
pub proof fn lemma_other_target_refused(buffer: BufferState, other: u32, data: Seq<u8>, usage: u32)
    requires
        buffer.target is Some,
        buffer.target != Some(other),
    ensures
        buffer.bind_result(other) == Err::<Command, WebGLError>(WebGLError::InvalidOperation),
        buffer.bind(other) == buffer,
        buffer.buffer_data_result(other, data, usage) == Err::<Command, WebGLError>(
            WebGLError::InvalidOperation,
        ),
        buffer.buffer_data(other, data) == buffer,
{
}

/// The target never changes once it is fixed, whatever is done to the
/// buffer, so a refusal for a foreign target is final.
pub proof fn lemma_target_is_permanent(buffer: BufferState, target: u32, data: Seq<u8>)
    requires
        buffer.target is Some,
    ensures
        buffer.bind(target).target == buffer.target,
        buffer.buffer_data(target, data).target == buffer.target,
        buffer.delete().target == buffer.target,
        buffer.add_reference().target == buffer.target,
        buffer.remove_reference().target == buffer.target,
{
}

/// A deleted buffer refuses every bind and upload through a target other
/// than the one it was bound to while alive.
pub proof fn lemma_deleted_buffer_refuses_other_target(
    buffer: BufferState,
    target: u32,
    data: Seq<u8>,
    usage: u32,
)
    requires
        buffer.is_deleted(),
        !buffer.accepts_target(target),
    ensures
        buffer.bind_result(target) is Err,
        buffer.buffer_data_result(target, data, usage) is Err,
        buffer.bind(target) == buffer,
        buffer.buffer_data(target, data) == buffer,
{
}

/// A delete command goes out exactly on the step that makes the buffer
/// deleted in the eyes of callers: deletion asked for and no reference left.
pub proof fn lemma_delete_command_marks_release(buffer: BufferState)
    ensures
        buffer.delete_emits() is Some <==> !buffer.is_deleted() && buffer.delete().is_deleted(),
        buffer.remove_reference_emits() is Some <==> !buffer.is_deleted()
            && buffer.remove_reference().is_deleted(),
        buffer.delete_emits() is Some ==> buffer.delete_emits() == Some(
            Command::DeleteBuffer(buffer.id),
        ),
        buffer.remove_reference_emits() is Some ==> buffer.remove_reference_emits() == Some(
            Command::DeleteBuffer(buffer.id),
        ),
{
}

/// Deferred deletion. A live buffer is attached at `n > 0` more points and
/// then asked to be deleted: nothing goes out, and the buffer does not count
/// as deleted. After `k` of its attachment points have let go, the buffer
/// counts as deleted exactly when all of them have, and the commands sent so
/// far are the single delete command then and none before that.
pub proof fn lemma_deferred_deletion(buffer: BufferState, n: nat, k: nat)
    requires
        !buffer.deletion_requested,
        0 < n,
        k <= buffer.references + n,
    ensures
        ({
            let attached = buffer.add_references(n);
            let all = buffer.references + n;
            &&& attached.references == all
            &&& attached.delete_emits() is None
            &&& !attached.delete().is_deleted()
            &&& attached.delete().remove_references(k).is_deleted() <==> k == all
            &&& attached.delete().remove_references(k).references == all - k
            &&& attached.delete().remove_references_emit(k) == if k == all {
                seq![Command::DeleteBuffer(buffer.id)]
            } else {
                Seq::<Command>::empty()
            }
        }),
{
    lemma_attached(buffer, n);
    lemma_pending_deletion(buffer.add_references(n).delete(), k);
}

/// Attaching changes nothing but the number of references.
proof fn lemma_attached(buffer: BufferState, n: nat)
    ensures
        buffer.add_references(n) == (BufferState {
            references: buffer.references + n,
            ..buffer
        }),
    decreases n,
{
    if n > 0 {
        lemma_attached(buffer.add_reference(), (n - 1) as nat);
    }
}

/// The inductive core of deferred deletion, for a buffer whose deletion is
/// already asked for.
proof fn lemma_pending_deletion(buffer: BufferState, k: nat)
    requires
        buffer.deletion_requested,
        k <= buffer.references,
    ensures
        buffer.remove_references(k).deletion_requested,
        buffer.remove_references(k).id == buffer.id,
        buffer.remove_references(k).references == buffer.references - k,
        buffer.remove_references_emit(k) == if k == buffer.references && k > 0 {
            seq![Command::DeleteBuffer(buffer.id)]
        } else {
            Seq::<Command>::empty()
        },
    decreases k,
{
    if k > 0 {
        lemma_pending_deletion(buffer.remove_reference(), (k - 1) as nat);
    }
}

/// Once released, a buffer stays silent: asking for deletion again or
/// letting go of a reference that is not there sends nothing and changes
/// nothing.
pub proof fn lemma_released_buffer_is_silent(buffer: BufferState)
    requires
        buffer.is_deleted(),
    ensures
        buffer.delete() == buffer,
        buffer.delete_emits() is None,
        buffer.remove_reference() == buffer,
        buffer.remove_reference_emits() is None,
{
}

} // verus!
