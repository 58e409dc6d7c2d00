use vstd::prelude::*;

use crate::buffer::BoxedError;
use crate::message::Message;
use crate::prompt::Prompt;
use crate::tool;

verus! {

/// Who drives the timing across a pad.
pub trait Direction {
}

/// The producer drives: it pushes into the sink.
pub struct Pushes;

/// The consumer drives: it pulls from the source.
pub struct Pulls;

impl Direction for Pushes {
}

impl Direction for Pulls {
}

/// A source of buffers of type `Out`, driven in direction `D`.
pub trait Source<Out, D: Direction> {
}

/// A sink of buffers of type `In`, driven in direction `D`.
pub trait Sink<In, D: Direction> {
}

/// A source that can be pulled from. A failure ends this call, not
/// necessarily the pad.
pub trait Pull<Out> {
    /// Pull a buffer.
    fn pull(&mut self) -> Result<Out, BoxedError>;
}

/// A sink that can be pushed into. A rejected buffer leaves the sink as it
/// was.
pub trait Push<In> {
    /// Push a buffer.
    fn push(&mut self, buffer: In) -> Result<(), BoxedError>;
}

/// A source of messages.
pub trait MessageSource<D: Direction>: Source<Message, D> {
}

impl<D: Direction, T: Source<Message, D>> MessageSource<D> for T {
}

/// A source of tool schemas.
pub trait ToolSchemaSource<D: Direction>: Source<serde_json::Value, D> {
}

impl<D: Direction, T: Source<serde_json::Value, D>> ToolSchemaSource<D> for T {
}

/// A source of tool uses.
pub trait ToolUseSource<D: Direction>: Source<tool::Use, D> {
}

impl<D: Direction, T: Source<tool::Use, D>> ToolUseSource<D> for T {
}

/// A source of tool results.
pub trait ToolResultSource<D: Direction>: Source<tool::Result, D> {
}

impl<D: Direction, T: Source<tool::Result, D>> ToolResultSource<D> for T {
}

/// A sink of prompts.
pub trait PromptSink<D: Direction>: Sink<Prompt, D> {
}

impl<D: Direction, T: Sink<Prompt, D>> PromptSink<D> for T {
}

/// A sink of messages.
pub trait MessageSink<D: Direction>: Sink<Message, D> {
}

impl<D: Direction, T: Sink<Message, D>> MessageSink<D> for T {
}

/// A sink of tool uses.
pub trait ToolUseSink<D: Direction>: Sink<tool::Use, D> {
}

impl<D: Direction, T: Sink<tool::Use, D>> ToolUseSink<D> for T {
}

} // verus!
