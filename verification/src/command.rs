//! Identifiers, errors and the commands forwarded to the resource owner.

use vstd::prelude::*;

verus! {

/// Name of a buffer, chosen by the resource owner.
#[derive(Clone, Copy, Debug, PartialEq, Eq, Hash, Structural)]
pub struct WebGLBufferId(pub u32);

/// Name of a vertex array object, chosen by the resource owner.
#[derive(Clone, Copy, Debug, PartialEq, Eq, Hash, Structural)]
pub struct WebGLVertexArrayId(pub u32);

/// Misuse of the API that is reported to the immediate caller. A rejected
/// operation changes nothing on the owner's side.
#[derive(Clone, Copy, Debug, PartialEq, Eq, Hash, Structural)]
pub enum WebGLError {
    /// The operation is not allowed in the current state of the object.
    InvalidOperation,
}

pub type WebGLResult<T> = Result<T, WebGLError>;

/// A fire-and-forget message for the resource owner.
#[derive(Debug, PartialEq, Eq)]
pub enum WebGLCommand {
    /// Bind a buffer, or nothing, to a target.
    BindBuffer(u32, Option<WebGLBufferId>),
    /// Upload bytes to the buffer bound to a target, with a usage hint.
    BufferData(u32, Vec<u8>, u32),
    /// Release a buffer.
    DeleteBuffer(WebGLBufferId),
    /// Make a vertex array, or the default one, current.
    BindVertexArray(Option<WebGLVertexArrayId>),
    /// Release a vertex array.
    DeleteVertexArray(WebGLVertexArrayId),
}

/// Mathematical form of a [`WebGLCommand`].
pub enum Command {
    BindBuffer(u32, Option<WebGLBufferId>),
    BufferData(u32, Seq<u8>, u32),
    DeleteBuffer(WebGLBufferId),
    BindVertexArray(Option<WebGLVertexArrayId>),
    DeleteVertexArray(WebGLVertexArrayId),
}

impl View for WebGLCommand {
    type V = Command;

    open spec fn view(&self) -> Command {
        match self {
            WebGLCommand::BindBuffer(target, id) => Command::BindBuffer(*target, *id),
            WebGLCommand::BufferData(target, data, usage) => Command::BufferData(
                *target,
                data@,
                *usage,
            ),
            WebGLCommand::DeleteBuffer(id) => Command::DeleteBuffer(*id),
            WebGLCommand::BindVertexArray(id) => Command::BindVertexArray(*id),
            WebGLCommand::DeleteVertexArray(id) => Command::DeleteVertexArray(*id),
        }
    }
}

/// Mathematical form of the outcome of an operation that either emits one
/// command or is refused.
pub open spec fn outcome(r: WebGLResult<WebGLCommand>) -> Result<Command, WebGLError> {
    match r {
        Ok(command) => Ok(command@),
        Err(error) => Err(error),
    }
}

/// Mathematical form of the command that an operation emits, if it emits
/// one.
pub open spec fn emitted(command: Option<WebGLCommand>) -> Option<Command> {
    match command {
        Some(command) => Some(command@),
        None => None,
    }
}

/// The commands sent by an operation that emits at most one, as a list.
pub open spec fn sent(command: Option<Command>) -> Seq<Command> {
    match command {
        Some(command) => seq![command],
        None => Seq::empty(),
    }
}

/// Mathematical form of a list of commands, in order.
pub open spec fn command_views(commands: Seq<WebGLCommand>) -> Seq<Command> {
    Seq::new(commands.len(), |i: int| commands[i]@)
}

} // verus!
