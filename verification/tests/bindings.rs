use webgl_resources::command::{WebGLBufferId, WebGLCommand, WebGLError, WebGLVertexArrayId};
use webgl_resources::context::WebGLRenderingContext;
use webgl_resources::vertex_array::{BufferHandle, VertexArrayHandle};
use webgl_resources::webgl_extensions::ext::oesvertexarrayobject::OESVertexArrayObject;

fn context_with_two_vertex_arrays() -> (WebGLRenderingContext, VertexArrayHandle, VertexArrayHandle) {
    let mut context = WebGLRenderingContext::new();
    let v1 = context.create_vertex_array(Some(WebGLVertexArrayId(10))).unwrap();
    let v2 = context.create_vertex_array(Some(WebGLVertexArrayId(20))).unwrap();
    (context, v1, v2)
}

#[test]
fn create_vertex_array_follows_reply() {
    let mut context = WebGLRenderingContext::new();
    let extension = OESVertexArrayObject::new();
    assert_eq!(extension.CreateVertexArrayOES(&mut context, None), None);
    let vao = extension.CreateVertexArrayOES(&mut context, Some(WebGLVertexArrayId(3))).unwrap();
    assert_eq!(vao, VertexArrayHandle(0));
    assert_eq!(context.vertex_array(vao).id(), WebGLVertexArrayId(3));
    assert!(!extension.IsVertexArrayOES(&context, Some(vao)));
}

#[test]
fn first_bind_marks_bound_and_restores_empty_snapshot() {
    let (mut context, v1, _) = context_with_two_vertex_arrays();
    let mut extension = OESVertexArrayObject::new();
    context.set_bound_buffer_array(Some(BufferHandle(0)));
    context.set_bound_buffer_element_array(Some(BufferHandle(1)));
    assert_eq!(
        extension.BindVertexArrayOES(&mut context, Some(v1)),
        Ok(WebGLCommand::BindVertexArray(Some(WebGLVertexArrayId(10))))
    );
    assert_eq!(extension.get_current_binding(), Some(v1));
    assert!(context.vertex_array(v1).ever_bound());
    assert_eq!(context.bound_buffer_array(), None);
    assert_eq!(context.bound_buffer_element_array(), None);
}

#[test]
fn round_trip_restores_array_binding() {
    let (mut context, v, v2) = context_with_two_vertex_arrays();
    let a = context.create_buffer(Some(WebGLBufferId(1))).unwrap();
    let e = context.create_buffer(Some(WebGLBufferId(2))).unwrap();
    let mut extension = OESVertexArrayObject::new();
    extension.BindVertexArrayOES(&mut context, Some(v)).unwrap();
    context.set_bound_buffer_array(Some(a));
    context.set_bound_buffer_element_array(Some(e));
    extension.BindVertexArrayOES(&mut context, Some(v2)).unwrap();
    assert_eq!(context.bound_buffer_array(), None);
    assert_eq!(context.bound_buffer_element_array(), None);
    assert_eq!(context.vertex_array(v).bound_buffer_array(), Some(a));
    assert_eq!(context.vertex_array(v).bound_buffer_element_array(), Some(e));
    extension.BindVertexArrayOES(&mut context, Some(v)).unwrap();
    assert_eq!(context.bound_buffer_array(), Some(a));
    assert_eq!(context.bound_buffer_element_array(), Some(e));
    assert_eq!(extension.get_current_binding(), Some(v));
}

#[test]
fn bindings_made_elsewhere_do_not_leak() {
    let (mut context, v, v2) = context_with_two_vertex_arrays();
    let a = context.create_buffer(Some(WebGLBufferId(1))).unwrap();
    let b = context.create_buffer(Some(WebGLBufferId(2))).unwrap();
    let mut extension = OESVertexArrayObject::new();
    extension.BindVertexArrayOES(&mut context, Some(v)).unwrap();
    context.set_bound_buffer_array(Some(a));
    extension.BindVertexArrayOES(&mut context, Some(v2)).unwrap();
    context.set_bound_buffer_array(Some(b));
    extension.BindVertexArrayOES(&mut context, Some(v)).unwrap();
    assert_eq!(context.bound_buffer_array(), Some(a));
    extension.BindVertexArrayOES(&mut context, Some(v2)).unwrap();
    assert_eq!(context.bound_buffer_array(), Some(b));
}

#[test]
fn rebinding_current_vertex_array_keeps_bindings() {
    let (mut context, v, _) = context_with_two_vertex_arrays();
    let mut extension = OESVertexArrayObject::new();
    extension.BindVertexArrayOES(&mut context, Some(v)).unwrap();
    context.set_bound_buffer_array(Some(BufferHandle(7)));
    assert_eq!(
        extension.BindVertexArrayOES(&mut context, Some(v)),
        Ok(WebGLCommand::BindVertexArray(Some(WebGLVertexArrayId(10))))
    );
    assert_eq!(context.bound_buffer_array(), Some(BufferHandle(7)));
}

#[test]
fn binding_default_clears_bindings_and_saves_snapshot() {
    let (mut context, v, _) = context_with_two_vertex_arrays();
    let mut extension = OESVertexArrayObject::new();
    extension.BindVertexArrayOES(&mut context, Some(v)).unwrap();
    context.set_bound_buffer_array(Some(BufferHandle(7)));
    context.set_bound_buffer_element_array(Some(BufferHandle(8)));
    assert_eq!(
        extension.BindVertexArrayOES(&mut context, None),
        Ok(WebGLCommand::BindVertexArray(None))
    );
    assert_eq!(extension.get_current_binding(), None);
    assert_eq!(context.bound_buffer_array(), None);
    assert_eq!(context.bound_buffer_element_array(), None);
    // Bindings made while the default vertex array is current are not kept.
    context.set_bound_buffer_array(Some(BufferHandle(9)));
    extension.BindVertexArrayOES(&mut context, Some(v)).unwrap();
    assert_eq!(context.bound_buffer_array(), Some(BufferHandle(7)));
    assert_eq!(context.bound_buffer_element_array(), Some(BufferHandle(8)));
}

#[test]
fn binding_default_from_default_only_sends_command() {
    let mut context = WebGLRenderingContext::new();
    let mut extension = OESVertexArrayObject::new();
    context.set_bound_buffer_array(Some(BufferHandle(1)));
    assert_eq!(
        extension.BindVertexArrayOES(&mut context, None),
        Ok(WebGLCommand::BindVertexArray(None))
    );
    assert_eq!(extension.get_current_binding(), None);
    assert_eq!(context.bound_buffer_array(), None);
}

#[test]
fn binding_deleted_vertex_array_is_refused() {
    let (mut context, v, v2) = context_with_two_vertex_arrays();
    let mut extension = OESVertexArrayObject::new();
    extension.BindVertexArrayOES(&mut context, Some(v)).unwrap();
    context.set_bound_buffer_array(Some(BufferHandle(3)));
    extension.DeleteVertexArrayOES(&mut context, Some(v2));
    assert_eq!(
        extension.BindVertexArrayOES(&mut context, Some(v2)),
        Err(WebGLError::InvalidOperation)
    );
    assert_eq!(extension.get_current_binding(), Some(v));
    assert_eq!(context.bound_buffer_array(), Some(BufferHandle(3)));
    assert!(!context.vertex_array(v2).ever_bound());
    // The refusal leaves the round trip intact.
    extension.BindVertexArrayOES(&mut context, None).unwrap();
    extension.BindVertexArrayOES(&mut context, Some(v)).unwrap();
    assert_eq!(context.bound_buffer_array(), Some(BufferHandle(3)));
}

#[test]
fn deleting_current_vertex_array_unbinds_first() {
    let (mut context, v, _) = context_with_two_vertex_arrays();
    let mut extension = OESVertexArrayObject::new();
    extension.BindVertexArrayOES(&mut context, Some(v)).unwrap();
    context.set_bound_buffer_array(Some(BufferHandle(3)));
    assert_eq!(
        extension.DeleteVertexArrayOES(&mut context, Some(v)),
        vec![
            WebGLCommand::BindVertexArray(None),
            WebGLCommand::DeleteVertexArray(WebGLVertexArrayId(10)),
        ]
    );
    assert_eq!(extension.get_current_binding(), None);
    assert!(context.vertex_array(v).is_deleted());
    assert!(context.vertex_array(v).ever_bound());
    assert_eq!(context.bound_buffer_array(), Some(BufferHandle(3)));
}

#[test]
fn deleting_other_vertex_array_keeps_current() {
    let (mut context, v, v2) = context_with_two_vertex_arrays();
    let mut extension = OESVertexArrayObject::new();
    extension.BindVertexArrayOES(&mut context, Some(v)).unwrap();
    assert_eq!(
        extension.DeleteVertexArrayOES(&mut context, Some(v2)),
        vec![WebGLCommand::DeleteVertexArray(WebGLVertexArrayId(20))]
    );
    assert_eq!(extension.get_current_binding(), Some(v));
    assert!(context.vertex_array(v2).is_deleted());
    assert!(!context.vertex_array(v).is_deleted());
}

#[test]
fn deleting_nothing_sends_nothing() {
    let (mut context, v, _) = context_with_two_vertex_arrays();
    let mut extension = OESVertexArrayObject::new();
    extension.BindVertexArrayOES(&mut context, Some(v)).unwrap();
    assert_eq!(extension.DeleteVertexArrayOES(&mut context, None), vec![]);
    assert_eq!(extension.get_current_binding(), Some(v));
}

#[test]
fn deleting_vertex_array_keeps_buffer_references() {
    let (mut context, v, _) = context_with_two_vertex_arrays();
    let b = context.create_buffer(Some(WebGLBufferId(1))).unwrap();
    let mut extension = OESVertexArrayObject::new();
    context.set_attachment(v, 0, Some(b));
    extension.DeleteVertexArrayOES(&mut context, Some(v));
    assert_eq!(context.vertex_array(v).attachment(0), Some(b));
    assert_eq!(context.delete_buffer(b), None);
    assert!(!context.buffer(b).is_deleted());
    assert_eq!(
        context.set_attachment(v, 0, None),
        Some(WebGLCommand::DeleteBuffer(WebGLBufferId(1)))
    );
}

#[test]
fn is_vertex_array_needs_a_bind_and_no_deletion() {
    let (mut context, v, v2) = context_with_two_vertex_arrays();
    let mut extension = OESVertexArrayObject::new();
    assert!(!extension.IsVertexArrayOES(&context, None));
    assert!(!extension.IsVertexArrayOES(&context, Some(v)));
    extension.BindVertexArrayOES(&mut context, Some(v)).unwrap();
    assert!(extension.IsVertexArrayOES(&context, Some(v)));
    assert!(!extension.IsVertexArrayOES(&context, Some(v2)));
    extension.BindVertexArrayOES(&mut context, Some(v2)).unwrap();
    assert!(extension.IsVertexArrayOES(&context, Some(v)));
    extension.DeleteVertexArrayOES(&mut context, Some(v));
    assert!(!extension.IsVertexArrayOES(&context, Some(v)));
    assert!(extension.IsVertexArrayOES(&context, Some(v2)));
}
