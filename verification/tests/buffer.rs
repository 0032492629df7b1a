use webgl_resources::buffer::WebGLBuffer;
use webgl_resources::command::{WebGLBufferId, WebGLCommand, WebGLError};
use webgl_resources::constants::{ARRAY_BUFFER, ELEMENT_ARRAY_BUFFER};

const STATIC_DRAW: u32 = 0x88E4;

#[test]
fn new_buffer_is_blank() {
    let buffer = WebGLBuffer::new(WebGLBufferId(7));
    assert_eq!(buffer.id(), WebGLBufferId(7));
    assert_eq!(buffer.target(), None);
    assert_eq!(buffer.capacity(), 0);
    assert!(!buffer.is_deleted());
}

#[test]
fn maybe_new_follows_reply() {
    assert!(WebGLBuffer::maybe_new(None).is_none());
    let buffer = WebGLBuffer::maybe_new(Some(WebGLBufferId(3))).unwrap();
    assert_eq!(buffer.id(), WebGLBufferId(3));
    assert_eq!(buffer.target(), None);
    assert!(!buffer.is_deleted());
}

#[test]
fn first_bind_fixes_target() {
    let mut buffer = WebGLBuffer::new(WebGLBufferId(1));
    assert_eq!(
        buffer.bind(ARRAY_BUFFER),
        Ok(WebGLCommand::BindBuffer(ARRAY_BUFFER, Some(WebGLBufferId(1))))
    );
    assert_eq!(buffer.target(), Some(ARRAY_BUFFER));
}

#[test]
fn rebinding_same_target_succeeds_and_forwards() {
    let mut buffer = WebGLBuffer::new(WebGLBufferId(1));
    let first = buffer.bind(ARRAY_BUFFER);
    let second = buffer.bind(ARRAY_BUFFER);
    assert_eq!(first, Ok(WebGLCommand::BindBuffer(ARRAY_BUFFER, Some(WebGLBufferId(1)))));
    assert_eq!(second, first);
    assert_eq!(buffer.target(), Some(ARRAY_BUFFER));
}

#[test]
fn binding_other_target_fails_without_command() {
    let mut buffer = WebGLBuffer::new(WebGLBufferId(1));
    buffer.bind(ARRAY_BUFFER).unwrap();
    assert_eq!(buffer.bind(ELEMENT_ARRAY_BUFFER), Err(WebGLError::InvalidOperation));
    assert_eq!(buffer.target(), Some(ARRAY_BUFFER));
    // The refusal is final: the first target still works, the other never does.
    assert!(buffer.bind(ARRAY_BUFFER).is_ok());
    assert_eq!(buffer.bind(ELEMENT_ARRAY_BUFFER), Err(WebGLError::InvalidOperation));
}

#[test]
fn buffer_data_records_capacity_and_copies_payload() {
    let mut buffer = WebGLBuffer::new(WebGLBufferId(4));
    buffer.bind(ARRAY_BUFFER).unwrap();
    let payload = [1u8, 2, 3, 4, 5];
    assert_eq!(
        buffer.buffer_data(ARRAY_BUFFER, &payload, STATIC_DRAW),
        Ok(WebGLCommand::BufferData(ARRAY_BUFFER, vec![1, 2, 3, 4, 5], STATIC_DRAW))
    );
    assert_eq!(buffer.capacity(), 5);
    assert_eq!(
        buffer.buffer_data(ARRAY_BUFFER, &[], STATIC_DRAW),
        Ok(WebGLCommand::BufferData(ARRAY_BUFFER, vec![], STATIC_DRAW))
    );
    assert_eq!(buffer.capacity(), 0);
}

#[test]
fn buffer_data_through_other_target_is_refused() {
    let mut buffer = WebGLBuffer::new(WebGLBufferId(4));
    buffer.bind(ARRAY_BUFFER).unwrap();
    buffer.buffer_data(ARRAY_BUFFER, &[9, 9], STATIC_DRAW).unwrap();
    assert_eq!(
        buffer.buffer_data(ELEMENT_ARRAY_BUFFER, &[1, 2, 3], STATIC_DRAW),
        Err(WebGLError::InvalidOperation)
    );
    assert_eq!(buffer.capacity(), 2);
}

#[test]
fn buffer_data_does_not_fix_target() {
    let mut buffer = WebGLBuffer::new(WebGLBufferId(4));
    buffer.buffer_data(ARRAY_BUFFER, &[1], STATIC_DRAW).unwrap();
    assert_eq!(buffer.target(), None);
    assert!(buffer.bind(ELEMENT_ARRAY_BUFFER).is_ok());
    assert_eq!(buffer.target(), Some(ELEMENT_ARRAY_BUFFER));
}

#[test]
fn delete_without_references_sends_at_once_and_only_once() {
    let mut buffer = WebGLBuffer::new(WebGLBufferId(11));
    assert_eq!(buffer.delete(), Some(WebGLCommand::DeleteBuffer(WebGLBufferId(11))));
    assert!(buffer.is_deleted());
    assert_eq!(buffer.delete(), None);
    assert_eq!(buffer.delete(), None);
    assert!(buffer.is_deleted());
}

#[test]
fn delete_with_references_is_deferred_to_last_removal() {
    let mut buffer = WebGLBuffer::new(WebGLBufferId(12));
    buffer.add_vao_reference();
    buffer.add_vao_reference();
    buffer.add_vao_reference();
    assert_eq!(buffer.delete(), None);
    assert!(!buffer.is_deleted());
    assert_eq!(buffer.remove_vao_reference(), None);
    assert!(!buffer.is_deleted());
    assert_eq!(buffer.remove_vao_reference(), None);
    assert!(!buffer.is_deleted());
    assert_eq!(
        buffer.remove_vao_reference(),
        Some(WebGLCommand::DeleteBuffer(WebGLBufferId(12)))
    );
    assert!(buffer.is_deleted());
    // Nothing more is ever sent for it.
    assert_eq!(buffer.remove_vao_reference(), None);
    assert_eq!(buffer.delete(), None);
    assert!(buffer.is_deleted());
}

#[test]
fn removing_reference_of_live_buffer_sends_nothing() {
    let mut buffer = WebGLBuffer::new(WebGLBufferId(13));
    buffer.add_vao_reference();
    assert_eq!(buffer.remove_vao_reference(), None);
    assert!(!buffer.is_deleted());
    assert_eq!(buffer.delete(), Some(WebGLCommand::DeleteBuffer(WebGLBufferId(13))));
}

#[test]
fn removing_reference_that_is_not_there_does_nothing() {
    let mut buffer = WebGLBuffer::new(WebGLBufferId(14));
    assert_eq!(buffer.remove_vao_reference(), None);
    assert!(!buffer.is_deleted());
    buffer.add_vao_reference();
    assert_eq!(buffer.delete(), None);
    assert!(!buffer.is_deleted());
}

#[test]
fn deleted_buffer_refuses_other_target() {
    let mut buffer = WebGLBuffer::new(WebGLBufferId(15));
    buffer.bind(ARRAY_BUFFER).unwrap();
    buffer.delete();
    assert!(buffer.is_deleted());
    assert_eq!(buffer.bind(ELEMENT_ARRAY_BUFFER), Err(WebGLError::InvalidOperation));
    assert_eq!(
        buffer.buffer_data(ELEMENT_ARRAY_BUFFER, &[1], STATIC_DRAW),
        Err(WebGLError::InvalidOperation)
    );
    assert_eq!(buffer.capacity(), 0);
}

#[test]
fn deletion_does_not_change_target_check() {
    let mut buffer = WebGLBuffer::new(WebGLBufferId(16));
    buffer.bind(ARRAY_BUFFER).unwrap();
    buffer.delete();
    assert_eq!(
        buffer.bind(ARRAY_BUFFER),
        Ok(WebGLCommand::BindBuffer(ARRAY_BUFFER, Some(WebGLBufferId(16))))
    );
}
