use webgl_resources::buffer::WebGLBuffer;
use webgl_resources::command::{WebGLBufferId, WebGLCommand, WebGLVertexArrayId};
use webgl_resources::vertex_array::{BufferHandle, WebGLVertexArrayObjectOES};

#[test]
fn new_vertex_array_is_blank() {
    let vao = WebGLVertexArrayObjectOES::new(WebGLVertexArrayId(21));
    assert_eq!(vao.id(), WebGLVertexArrayId(21));
    assert!(!vao.is_deleted());
    assert!(!vao.ever_bound());
    assert_eq!(vao.bound_buffer_array(), None);
    assert_eq!(vao.bound_buffer_element_array(), None);
    assert_eq!(vao.attachment(0), None);
}

#[test]
fn vertex_array_flags_are_sticky() {
    let mut vao = WebGLVertexArrayObjectOES::new(WebGLVertexArrayId(1));
    vao.set_ever_bound();
    assert!(vao.ever_bound());
    assert!(!vao.is_deleted());
    vao.set_deleted();
    assert!(vao.is_deleted());
    assert!(vao.ever_bound());
    vao.set_ever_bound();
    vao.set_deleted();
    assert!(vao.is_deleted());
    assert!(vao.ever_bound());
}

#[test]
fn snapshot_slots_are_independent() {
    let mut vao = WebGLVertexArrayObjectOES::new(WebGLVertexArrayId(1));
    vao.set_bound_buffer_array(Some(BufferHandle(4)));
    assert_eq!(vao.bound_buffer_array(), Some(BufferHandle(4)));
    assert_eq!(vao.bound_buffer_element_array(), None);
    vao.set_bound_buffer_element_array(Some(BufferHandle(6)));
    assert_eq!(vao.bound_buffer_array(), Some(BufferHandle(4)));
    assert_eq!(vao.bound_buffer_element_array(), Some(BufferHandle(6)));
    vao.set_bound_buffer_array(None);
    assert_eq!(vao.bound_buffer_array(), None);
    assert_eq!(vao.bound_buffer_element_array(), Some(BufferHandle(6)));
}

#[test]
fn set_attachment_counts_references_in_arena() {
    let mut buffers = vec![WebGLBuffer::new(WebGLBufferId(1)), WebGLBuffer::new(WebGLBufferId(2))];
    let mut vao = WebGLVertexArrayObjectOES::new(WebGLVertexArrayId(1));
    assert_eq!(vao.set_attachment(&mut buffers, 3, Some(BufferHandle(1))), None);
    assert_eq!(vao.attachment(3), Some(BufferHandle(1)));
    assert_eq!(vao.attachment(0), None);
    // The second buffer is now referenced: its deletion is deferred.
    assert_eq!(buffers[1].delete(), None);
    assert!(!buffers[1].is_deleted());
    // Replacing it with the first buffer releases it.
    assert_eq!(
        vao.set_attachment(&mut buffers, 3, Some(BufferHandle(0))),
        Some(WebGLCommand::DeleteBuffer(WebGLBufferId(2)))
    );
    assert!(buffers[1].is_deleted());
    assert_eq!(vao.attachment(3), Some(BufferHandle(0)));
    assert_eq!(buffers[0].delete(), None);
    assert_eq!(
        vao.set_attachment(&mut buffers, 3, None),
        Some(WebGLCommand::DeleteBuffer(WebGLBufferId(1)))
    );
    assert_eq!(vao.attachment(3), None);
}

#[test]
fn detaching_empty_slot_does_nothing() {
    let mut buffers = vec![WebGLBuffer::new(WebGLBufferId(1))];
    let mut vao = WebGLVertexArrayObjectOES::new(WebGLVertexArrayId(1));
    assert_eq!(vao.set_attachment(&mut buffers, 0, None), None);
    assert_eq!(vao.attachment(0), None);
    assert_eq!(buffers[0].delete(), Some(WebGLCommand::DeleteBuffer(WebGLBufferId(1))));
}
