use webgl_resources::command::{WebGLBufferId, WebGLCommand, WebGLError, WebGLVertexArrayId};
use webgl_resources::constants::{ARRAY_BUFFER, ELEMENT_ARRAY_BUFFER};
use webgl_resources::context::WebGLRenderingContext;
use webgl_resources::vertex_array::{BufferHandle, VertexArrayHandle};

#[test]
fn new_context_is_empty() {
    let context = WebGLRenderingContext::new();
    assert!(!context.has_buffer(BufferHandle(0)));
    assert!(!context.has_vertex_array(VertexArrayHandle(0)));
    assert_eq!(context.bound_buffer_array(), None);
    assert_eq!(context.bound_buffer_element_array(), None);
}

#[test]
fn failed_creation_changes_nothing() {
    let mut context = WebGLRenderingContext::new();
    assert_eq!(context.create_buffer(None), None);
    assert_eq!(context.create_vertex_array(None), None);
    assert!(!context.has_buffer(BufferHandle(0)));
    assert!(!context.has_vertex_array(VertexArrayHandle(0)));
}

#[test]
fn handles_count_up_from_zero() {
    let mut context = WebGLRenderingContext::new();
    assert_eq!(context.create_buffer(Some(WebGLBufferId(40))), Some(BufferHandle(0)));
    assert_eq!(context.create_buffer(None), None);
    assert_eq!(context.create_buffer(Some(WebGLBufferId(41))), Some(BufferHandle(1)));
    assert_eq!(context.create_vertex_array(Some(WebGLVertexArrayId(7))), Some(VertexArrayHandle(0)));
    assert_eq!(context.buffer(BufferHandle(0)).id(), WebGLBufferId(40));
    assert_eq!(context.buffer(BufferHandle(1)).id(), WebGLBufferId(41));
    assert_eq!(context.vertex_array(VertexArrayHandle(0)).id(), WebGLVertexArrayId(7));
    assert!(context.has_buffer(BufferHandle(1)));
    assert!(!context.has_buffer(BufferHandle(2)));
    assert!(!context.has_vertex_array(VertexArrayHandle(1)));
}

#[test]
fn context_forwards_buffer_operations() {
    let mut context = WebGLRenderingContext::new();
    let a = context.create_buffer(Some(WebGLBufferId(1))).unwrap();
    let b = context.create_buffer(Some(WebGLBufferId(2))).unwrap();
    assert_eq!(
        context.bind_buffer(a, ARRAY_BUFFER),
        Ok(WebGLCommand::BindBuffer(ARRAY_BUFFER, Some(WebGLBufferId(1))))
    );
    assert_eq!(context.bind_buffer(a, ELEMENT_ARRAY_BUFFER), Err(WebGLError::InvalidOperation));
    assert_eq!(
        context.buffer_data(a, ARRAY_BUFFER, &[1, 2, 3], 0x88E4),
        Ok(WebGLCommand::BufferData(ARRAY_BUFFER, vec![1, 2, 3], 0x88E4))
    );
    assert_eq!(context.buffer(a).capacity(), 3);
    assert_eq!(context.buffer(b).capacity(), 0);
    assert_eq!(context.buffer(b).target(), None);
    assert_eq!(context.delete_buffer(b), Some(WebGLCommand::DeleteBuffer(WebGLBufferId(2))));
    assert!(context.buffer(b).is_deleted());
    assert!(!context.buffer(a).is_deleted());
    assert_eq!(context.delete_buffer(b), None);
}

#[test]
fn live_bindings_are_set_independently() {
    let mut context = WebGLRenderingContext::new();
    context.set_bound_buffer_array(Some(BufferHandle(2)));
    assert_eq!(context.bound_buffer_array(), Some(BufferHandle(2)));
    assert_eq!(context.bound_buffer_element_array(), None);
    context.set_bound_buffer_element_array(Some(BufferHandle(5)));
    context.set_bound_buffer_array(None);
    assert_eq!(context.bound_buffer_array(), None);
    assert_eq!(context.bound_buffer_element_array(), Some(BufferHandle(5)));
}

#[test]
fn deferred_deletion_across_two_slots() {
    let mut context = WebGLRenderingContext::new();
    let b1 = context.create_buffer(Some(WebGLBufferId(77))).unwrap();
    let v1 = context.create_vertex_array(Some(WebGLVertexArrayId(5))).unwrap();
    assert_eq!(context.set_attachment(v1, 0, Some(b1)), None);
    assert_eq!(context.set_attachment(v1, 1, Some(b1)), None);
    assert_eq!(context.vertex_array(v1).attachment(0), Some(b1));
    assert_eq!(context.vertex_array(v1).attachment(1), Some(b1));

    assert_eq!(context.delete_buffer(b1), None);
    assert!(!context.buffer(b1).is_deleted());

    assert_eq!(context.set_attachment(v1, 0, None), None);
    assert!(!context.buffer(b1).is_deleted());

    assert_eq!(
        context.set_attachment(v1, 1, None),
        Some(WebGLCommand::DeleteBuffer(WebGLBufferId(77)))
    );
    assert!(context.buffer(b1).is_deleted());

    // Exactly one delete command: nothing follows.
    assert_eq!(context.set_attachment(v1, 0, None), None);
    assert_eq!(context.set_attachment(v1, 1, None), None);
    assert_eq!(context.delete_buffer(b1), None);
}

#[test]
fn deferred_deletion_across_vertex_arrays() {
    let mut context = WebGLRenderingContext::new();
    let b = context.create_buffer(Some(WebGLBufferId(3))).unwrap();
    let v1 = context.create_vertex_array(Some(WebGLVertexArrayId(1))).unwrap();
    let v2 = context.create_vertex_array(Some(WebGLVertexArrayId(2))).unwrap();
    let v3 = context.create_vertex_array(Some(WebGLVertexArrayId(3))).unwrap();
    for v in [v1, v2, v3] {
        assert_eq!(context.set_attachment(v, 0, Some(b)), None);
    }
    assert_eq!(context.delete_buffer(b), None);
    assert_eq!(context.set_attachment(v2, 0, None), None);
    assert!(!context.buffer(b).is_deleted());
    assert_eq!(context.set_attachment(v1, 0, None), None);
    assert!(!context.buffer(b).is_deleted());
    assert_eq!(
        context.set_attachment(v3, 0, None),
        Some(WebGLCommand::DeleteBuffer(WebGLBufferId(3)))
    );
    assert!(context.buffer(b).is_deleted());
}

#[test]
fn reattaching_to_same_slot_never_releases() {
    let mut context = WebGLRenderingContext::new();
    let b = context.create_buffer(Some(WebGLBufferId(9))).unwrap();
    let v = context.create_vertex_array(Some(WebGLVertexArrayId(1))).unwrap();
    context.set_attachment(v, 2, Some(b));
    assert_eq!(context.delete_buffer(b), None);
    // The slot is the last attachment point of a buffer whose deletion is
    // pending. Putting the buffer into it again must not pass through zero.
    assert_eq!(context.set_attachment(v, 2, Some(b)), None);
    assert!(!context.buffer(b).is_deleted());
    assert_eq!(context.vertex_array(v).attachment(2), Some(b));
    assert_eq!(
        context.set_attachment(v, 2, None),
        Some(WebGLCommand::DeleteBuffer(WebGLBufferId(9)))
    );
}

#[test]
fn moving_buffer_between_slots_keeps_it_alive() {
    let mut context = WebGLRenderingContext::new();
    let b = context.create_buffer(Some(WebGLBufferId(9))).unwrap();
    let v = context.create_vertex_array(Some(WebGLVertexArrayId(1))).unwrap();
    context.set_attachment(v, 0, Some(b));
    assert_eq!(context.delete_buffer(b), None);
    assert_eq!(context.set_attachment(v, 1, Some(b)), None);
    assert_eq!(context.set_attachment(v, 0, None), None);
    assert!(!context.buffer(b).is_deleted());
    assert_eq!(context.vertex_array(v).attachment(0), None);
    assert_eq!(context.vertex_array(v).attachment(1), Some(b));
}

#[test]
fn replacing_attachment_releases_outgoing_buffer() {
    let mut context = WebGLRenderingContext::new();
    let old = context.create_buffer(Some(WebGLBufferId(1))).unwrap();
    let new = context.create_buffer(Some(WebGLBufferId(2))).unwrap();
    let v = context.create_vertex_array(Some(WebGLVertexArrayId(1))).unwrap();
    context.set_attachment(v, 0, Some(old));
    assert_eq!(context.delete_buffer(old), None);
    assert_eq!(
        context.set_attachment(v, 0, Some(new)),
        Some(WebGLCommand::DeleteBuffer(WebGLBufferId(1)))
    );
    assert!(context.buffer(old).is_deleted());
    assert!(!context.buffer(new).is_deleted());
    assert_eq!(context.vertex_array(v).attachment(0), Some(new));
}

#[test]
fn detaching_live_buffer_sends_nothing() {
    let mut context = WebGLRenderingContext::new();
    let b = context.create_buffer(Some(WebGLBufferId(1))).unwrap();
    let v = context.create_vertex_array(Some(WebGLVertexArrayId(1))).unwrap();
    context.set_attachment(v, 0, Some(b));
    assert_eq!(context.set_attachment(v, 0, None), None);
    assert!(!context.buffer(b).is_deleted());
    assert_eq!(context.delete_buffer(b), Some(WebGLCommand::DeleteBuffer(WebGLBufferId(1))));
}
