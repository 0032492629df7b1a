//! Vertex array objects, and the coordination of buffer bindings across
//! changes of the current vertex array.

use vstd::prelude::*;
use crate::capabilities::str_views;
use crate::command::{
    command_views, outcome, Command, WebGLCommand, WebGLError, WebGLResult, WebGLVertexArrayId,
};
use crate::constants::VERTEX_ARRAY_BINDING_OES;
use crate::context::{ContextState, WebGLRenderingContext};
use crate::vertex_array::{BufferHandle, VertexArrayHandle, VertexArrayState};
use crate::webgl_extensions::extension::ExtensionKind;
use crate::webgl_extensions::manager::{QueryParameterHandler, WebGLExtensionManager};

verus! {

/// Mathematical state of the coordination of bindings: the vertex array
/// that is current, and the context whose buffer bindings follow it.
///
/// The two buffer bindings of the context belong to whichever vertex array
/// is current. When a vertex array stops being current, it takes a snapshot
/// of them; when it becomes current again, they are restored from that
/// snapshot. The default vertex array has no snapshot slots, so nothing is
/// ever saved on its behalf: entering it clears the bindings, and what is
/// bound while it is current is gone once a vertex array becomes current.
#[verifier::ext_equal]
pub struct BindingState {
    pub bound_vao: Option<VertexArrayHandle>,
    pub context: ContextState,
}

impl BindingState {
    /// Validity: the current vertex array, if any, is one of the context.
    pub open spec fn wf(self) -> bool {
        match self.bound_vao {
            Some(bound) => self.context.has_vertex_array(bound),
            None => true,
        }
    }

    /// Whether `vao`, if any, is a vertex array of the context.
    pub open spec fn knows(self, vao: Option<VertexArrayHandle>) -> bool {
        match vao {
            Some(handle) => self.context.has_vertex_array(handle),
            None => true,
        }
    }

    /// The context after the current vertex array, if any, has taken a
    /// snapshot of the two buffer bindings.
    pub open spec fn saved(self) -> ContextState {
        match self.bound_vao {
            Some(bound) => self.context.save_bindings(bound),
            None => self.context,
        }
    }

    /// Whether a request to make `vao` current is refused: it is if `vao` is
    /// a deleted vertex array.
    pub open spec fn refuses(self, vao: Option<VertexArrayHandle>) -> bool {
        match vao {
            Some(handle) => self.context.vertex_array(handle).deleted,
            None => false,
        }
    }

    /// The state after a request to make `vao` current. The vertex array
    /// that is current, if there is one, takes its snapshot in any case. A
    /// refused request changes nothing else. An accepted one marks `vao` as
    /// bound, makes it current and restores the buffer bindings from its
    /// snapshot; with no `vao`, the default vertex array becomes current and
    /// the buffer bindings are cleared.
    pub open spec fn bind(self, vao: Option<VertexArrayHandle>) -> BindingState {
        let saved = self.saved();
        match vao {
            Some(handle) => if self.refuses(vao) {
                BindingState { context: saved, ..self }
            } else {
                BindingState {
                    bound_vao: vao,
                    context: saved.with_vertex_array(
                        handle,
                        VertexArrayState { ever_bound: true, ..saved.vertex_array(handle) },
                    ).restore_bindings(handle),
                }
            },
            None => BindingState { bound_vao: None, context: saved.clear_bindings() },
        }
    }

    /// What a request to make `vao` current yields: the bind command, or an
    /// error if the request is refused.
    pub open spec fn bind_result(self, vao: Option<VertexArrayHandle>) -> Result<
        Command,
        WebGLError,
    > {
        match vao {
            Some(handle) => if self.refuses(vao) {
                Err(WebGLError::InvalidOperation)
            } else {
                Ok(Command::BindVertexArray(Some(self.context.vertex_array(handle).id)))
            },
            None => Ok(Command::BindVertexArray(None)),
        }
    }

    /// Whether deleting `vao` unbinds the current vertex array: it does if
    /// the two carry the same id.
    pub open spec fn delete_unbinds(self, vao: VertexArrayHandle) -> bool {
        match self.bound_vao {
            Some(bound) => self.context.vertex_array(bound).id == self.context.vertex_array(vao).id,
            None => false,
        }
    }

    /// The state after the deletion of `vao`: the vertex array is marked
    /// deleted, and it is no longer current if it was. Without a `vao`
    /// nothing changes.
    pub open spec fn delete(self, vao: Option<VertexArrayHandle>) -> BindingState {
        match vao {
            Some(handle) => BindingState {
                bound_vao: if self.delete_unbinds(handle) {
                    None
                } else {
                    self.bound_vao
                },
                context: self.context.with_vertex_array(
                    handle,
                    VertexArrayState { deleted: true, ..self.context.vertex_array(handle) },
                ),
            },
            None => self,
        }
    }

    /// The commands that the deletion of `vao` sends: first the bind of the
    /// default vertex array if `vao` was current, then the delete command.
    pub open spec fn delete_emits(self, vao: Option<VertexArrayHandle>) -> Seq<Command> {
        match vao {
            Some(handle) => {
                let delete = Command::DeleteVertexArray(self.context.vertex_array(handle).id);
                if self.delete_unbinds(handle) {
                    seq![Command::BindVertexArray(None), delete]
                } else {
                    seq![delete]
                }
            },
            None => Seq::empty(),
        }
    }

    /// Whether `vao` counts as a vertex array for scripts: it was bound at
    /// some time and is not deleted.
    pub open spec fn is_vertex_array(self, vao: Option<VertexArrayHandle>) -> bool {
        match vao {
            Some(handle) => !self.context.vertex_array(handle).deleted && self.context.vertex_array(
                handle,
            ).ever_bound,
            None => false,
        }
    }

    /// The state after the context has bound `buffer` as array buffer.
    pub open spec fn with_array_binding(self, buffer: Option<BufferHandle>) -> BindingState {
        BindingState {
            context: ContextState { bound_buffer_array: buffer, ..self.context },
            ..self
        }
    }

    /// The state after the context has bound `buffer` as element array
    /// buffer.
    pub open spec fn with_element_array_binding(self, buffer: Option<BufferHandle>) -> BindingState {
        BindingState {
            context: ContextState { bound_buffer_element_array: buffer, ..self.context },
            ..self
        }
    }
}

/// The instance of the vertex array object extension. It knows which vertex
/// array is current.
pub struct OESVertexArrayObject {
    bound_vao: Option<VertexArrayHandle>,
}

impl View for OESVertexArrayObject {
    type V = Option<VertexArrayHandle>;

    closed spec fn view(&self) -> Option<VertexArrayHandle> {
        self.bound_vao
    }
}

impl OESVertexArrayObject {
    /// An instance with the default vertex array current.
    pub fn new() -> (extension: OESVertexArrayObject)
        ensures
            extension@ is None,
    {
        OESVertexArrayObject { bound_vao: None }
    }

    /// The vertex array that is current, if it is not the default one.
    pub fn get_current_binding(&self) -> (bound: Option<VertexArrayHandle>)
        ensures
            bound == self@,
    {
        self.bound_vao
    }

    /// The state of the coordination between this instance and `context`.
    pub open spec fn state(&self, context: &WebGLRenderingContext) -> BindingState {
        BindingState { bound_vao: self@, context: context@ }
    }

    /// Takes the owner's reply to a vertex array creation request; see
    /// [`WebGLRenderingContext::create_vertex_array`].
    #[allow(non_snake_case)]
    pub fn CreateVertexArrayOES(
        &self,
        context: &mut WebGLRenderingContext,
        reply: Option<WebGLVertexArrayId>,
    ) -> (vao: Option<VertexArrayHandle>)
        ensures
            old(context)@.wf() ==> final(context)@.wf(),
            final(context)@ == old(context)@.create_vertex_array(reply),
            reply is None ==> vao is None,
            reply is Some ==> vao is Some && vao->0.index() == old(context)@.vertex_arrays.len(),
            self.state(old(context)).wf() ==> self.state(final(context)).wf(),
    {
        context.create_vertex_array(reply)
    }

    /// Deletes `vao`. If a vertex array with the id of `vao` is current, the
    /// default vertex array becomes current first. The buffers attached to
    /// `vao` keep their references, and the buffer bindings of the context
    /// stay as they are.
    #[allow(non_snake_case)]
    pub fn DeleteVertexArrayOES(
        &mut self,
        context: &mut WebGLRenderingContext,
        vao: Option<VertexArrayHandle>,
    ) -> (commands: Vec<WebGLCommand>)
        requires
            old(self).state(old(context)).wf(),
            old(self).state(old(context)).knows(vao),
        ensures
            final(self).state(final(context)) == old(self).state(old(context)).delete(vao),
            command_views(commands@) == old(self).state(old(context)).delete_emits(vao),
            final(self).state(final(context)).wf(),
            old(context)@.wf() ==> final(context)@.wf(),
    {
        let mut commands: Vec<WebGLCommand> = Vec::new();
        if let Some(handle) = vao {
            let id = context.vertex_array(handle).id();
            if let Some(bound) = self.bound_vao {
                if context.vertex_array(bound).id() == id {
                    self.bound_vao = None;
                    commands.push(WebGLCommand::BindVertexArray(None));
                }
            }
            commands.push(WebGLCommand::DeleteVertexArray(id));
            context.set_vertex_array_deleted(handle);
        }
        assert(command_views(commands@) =~= old(self).state(old(context)).delete_emits(vao));
        commands
    }

    /// Whether `vao` counts as a vertex array for scripts: it was bound at
    /// some time and is not deleted.
    #[allow(non_snake_case)]
    pub fn IsVertexArrayOES(
        &self,
        context: &WebGLRenderingContext,
        vao: Option<VertexArrayHandle>,
    ) -> (is_vertex_array: bool)
        requires
            self.state(context).knows(vao),
        ensures
            is_vertex_array == self.state(context).is_vertex_array(vao),
    {
        match vao {
            Some(handle) => {
                let vertex_array = context.vertex_array(handle);
                !vertex_array.is_deleted() && vertex_array.ever_bound()
            },
            None => false,
        }
    }

    /// Makes `vao` current, or the default vertex array if there is no
    /// `vao`. The vertex array that is current, if there is one, first takes
    /// a snapshot of the two buffer bindings of the context. A deleted `vao`
    /// is then refused: no command is handed back, and nothing else changes.
    /// Otherwise `vao` is marked as bound and becomes current, and the
    /// buffer bindings of the context are restored from its snapshot, which
    /// is empty before its first deactivation; with no `vao`, they are
    /// cleared.
    #[allow(non_snake_case)]
    pub fn BindVertexArrayOES(
        &mut self,
        context: &mut WebGLRenderingContext,
        vao: Option<VertexArrayHandle>,
    ) -> (result: WebGLResult<WebGLCommand>)
        requires
            old(self).state(old(context)).wf(),
            old(self).state(old(context)).knows(vao),
        ensures
            final(self).state(final(context)) == old(self).state(old(context)).bind(vao),
            outcome(result) == old(self).state(old(context)).bind_result(vao),
            final(self).state(final(context)).wf(),
            old(context)@.wf() ==> final(context)@.wf(),
    {
        if let Some(bound) = self.bound_vao {
            context.save_bindings(bound);
        }
        match vao {
            Some(handle) => {
                if context.vertex_array(handle).is_deleted() {
                    return Err(WebGLError::InvalidOperation);
                }
                let id = context.vertex_array(handle).id();
                context.set_vertex_array_ever_bound(handle);
                self.bound_vao = Some(handle);
                context.restore_bindings(handle);
                Ok(WebGLCommand::BindVertexArray(Some(id)))
            },
            None => {
                self.bound_vao = None;
                context.set_bound_buffer_array(None);
                context.set_bound_buffer_element_array(None);
                Ok(WebGLCommand::BindVertexArray(None))
            },
        }
    }

    /// Supported where the driver lists any of the three forms of the
    /// extension.
    pub fn is_supported(manager: &WebGLExtensionManager) -> (supported: bool)
        ensures
            supported == ExtensionKind::VertexArrayObject.supported_by(manager@.gl_extensions),
    {
        let names: [&str; 3] = [
            "GL_OES_vertex_array_object",
            "GL_ARB_vertex_array_object",
            "GL_APPLE_vertex_array_object",
        ];
        let supported = manager.supports_any_gl_extension(names.as_slice());
        proof {
            let listed = ExtensionKind::VertexArrayObject.gl_names();
            assert(str_views(names@) =~= listed);
        }
        supported
    }

    /// Gives the query for the current vertex array binding its handler.
    pub fn enable(manager: &mut WebGLExtensionManager)
        ensures
            final(manager)@ == ExtensionKind::VertexArrayObject.enabled(old(manager)@),
    {
        manager.add_query_parameter_handler(
            VERTEX_ARRAY_BINDING_OES,
            QueryParameterHandler::VertexArrayBinding,
        );
    }

    pub fn name() -> (name: &'static str)
        ensures
            name@ == ExtensionKind::VertexArrayObject.spec_name(),
    {
        "OES_vertex_array_object"
    }
}

/// Round trip of the buffer bindings. A vertex array becomes current, the
/// context binds `array` and `element_array`, a vertex array becomes current
/// (another one or the same), and then the first one again: the two buffer
/// bindings of the context are `array` and `element_array` once more.
pub proof fn lemma_bindings_survive_round_trip(
    state: BindingState,
    vao: VertexArrayHandle,
    other: VertexArrayHandle,
    array: Option<BufferHandle>,
    element_array: Option<BufferHandle>,
)
    requires
        state.wf(),
        state.context.has_vertex_array(vao),
        state.context.has_vertex_array(other),
        !state.context.vertex_array(vao).deleted,
        !state.context.vertex_array(other).deleted,
    ensures
        ({
            let bound = state.bind(Some(vao)).with_array_binding(array).with_element_array_binding(
                element_array,
            );
            let back = bound.bind(Some(other)).bind(Some(vao));
            &&& back.bound_vao == Some(vao)
            &&& back.context.bound_buffer_array == array
            &&& back.context.bound_buffer_element_array == element_array
        }),
{
}

/// The bindings made while one vertex array is current do not leak into
/// another. As in the round trip, but while `other`, a different vertex
/// array, is current the context binds `array_between` and
/// `element_array_between`: back at `vao` the bindings are still `array` and
/// `element_array`.
pub proof fn lemma_bindings_belong_to_current(
    state: BindingState,
    vao: VertexArrayHandle,
    other: VertexArrayHandle,
    array: Option<BufferHandle>,
    element_array: Option<BufferHandle>,
    array_between: Option<BufferHandle>,
    element_array_between: Option<BufferHandle>,
)
    requires
        state.wf(),
        state.context.has_vertex_array(vao),
        state.context.has_vertex_array(other),
        !state.context.vertex_array(vao).deleted,
        !state.context.vertex_array(other).deleted,
        vao != other,
    ensures
        ({
            let bound = state.bind(Some(vao)).with_array_binding(array).with_element_array_binding(
                element_array,
            );
            let away = bound.bind(Some(other)).with_array_binding(
                array_between,
            ).with_element_array_binding(element_array_between);
            let back = away.bind(Some(vao));
            &&& back.bound_vao == Some(vao)
            &&& back.context.bound_buffer_array == array
            &&& back.context.bound_buffer_element_array == element_array
        }),
{
}

/// The same round trip through the default vertex array.
pub proof fn lemma_bindings_survive_default(
    state: BindingState,
    vao: VertexArrayHandle,
    array: Option<BufferHandle>,
    element_array: Option<BufferHandle>,
    array_between: Option<BufferHandle>,
    element_array_between: Option<BufferHandle>,
)
    requires
        state.wf(),
        state.context.has_vertex_array(vao),
        !state.context.vertex_array(vao).deleted,
    ensures
        ({
            let bound = state.bind(Some(vao)).with_array_binding(array).with_element_array_binding(
                element_array,
            );
            let away = bound.bind(None);
            let back = away.with_array_binding(array_between).with_element_array_binding(
                element_array_between,
            ).bind(Some(vao));
            &&& away.bound_vao is None
            &&& away.context.bound_buffer_array is None
            &&& away.context.bound_buffer_element_array is None
            &&& back.context.bound_buffer_array == array
            &&& back.context.bound_buffer_element_array == element_array
        }),
{
}

/// A refused bind has no effect that can be seen: the vertex array that was
/// current stays current, the buffer bindings of the context stay, and the
/// snapshot that the current vertex array has taken is what the next
/// accepted bind would have taken anyway.
pub proof fn lemma_refused_bind_is_invisible(
    state: BindingState,
    deleted: VertexArrayHandle,
    next: Option<VertexArrayHandle>,
)
    requires
        state.wf(),
        state.context.has_vertex_array(deleted),
        state.knows(next),
        state.context.vertex_array(deleted).deleted,
    ensures
        state.bind_result(Some(deleted)) == Err::<Command, WebGLError>(
            WebGLError::InvalidOperation,
        ),
        state.bind(Some(deleted)).bound_vao == state.bound_vao,
        state.bind(Some(deleted)).context.bound_buffer_array == state.context.bound_buffer_array,
        state.bind(Some(deleted)).context.bound_buffer_element_array
            == state.context.bound_buffer_element_array,
        state.bind(Some(deleted)).bind(next) == state.bind(next),
        state.bind(Some(deleted)).bind_result(next) == state.bind_result(next),
{
    let refused = state.bind(Some(deleted));
    assert(refused.saved().vertex_arrays =~= state.saved().vertex_arrays);
    assert(refused.saved() == state.saved());
}

/// The flags of a vertex array are sticky: neither a bind nor a deletion
/// clears `deleted` or `ever_bound` on any vertex array.
pub proof fn lemma_flags_are_sticky(
    state: BindingState,
    vao: Option<VertexArrayHandle>,
    any: VertexArrayHandle,
)
    requires
        state.wf(),
        state.knows(vao),
        state.context.has_vertex_array(any),
    ensures
        state.context.vertex_array(any).deleted ==> state.bind(vao).context.vertex_array(
            any,
        ).deleted && state.delete(vao).context.vertex_array(any).deleted,
        state.context.vertex_array(any).ever_bound ==> state.bind(vao).context.vertex_array(
            any,
        ).ever_bound && state.delete(vao).context.vertex_array(any).ever_bound,
        state.bind(vao).context.vertex_array(any).ever_bound ==> state.context.vertex_array(
            any,
        ).ever_bound || (vao == Some(any) && state.bind_result(vao) is Ok),
{
}

} // verus!
