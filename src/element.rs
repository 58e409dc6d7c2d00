use vstd::prelude::*;

use crate::backends::Backend;
use crate::buffer::BoxedError;
use crate::info::Info;
use crate::message::Message;
use crate::pad::{Direction, Pull, Pulls, Push, Pushes, Sink, Source};
use crate::prompt::{may_follow, Prompt, TurnOrderError};
use vstd::string::*;

verus! {

/// The kind of buffer that a pad of an element yields or accepts.
#[derive(Debug, Clone, Copy, PartialEq, Eq, Structural)]
pub enum PadKind {
    Prompt,
    Message,
    AgentMessage,
    UserMessage,
    ToolSchema,
    ToolUse,
    ToolResult,
}

/// An element of a pipeline: a lifecycle (`init`, `stop`), a backend and the
/// pads it offers at the moment. The pads may change across the lifecycle,
/// so callers do not keep them across a transition.
pub trait Element {
    /// Prepare the element to accept or produce buffers. By default there
    /// is nothing to prepare.
    fn init(&mut self) -> Result<(), String> {
        Ok(())
    }

    /// Stop accepting buffers; release what should not be released in a
    /// drop. By default there is nothing to release.
    fn stop(&mut self) -> Result<(), String> {
        Ok(())
    }

    /// The backend of the element.
    fn backend(&self) -> Backend;

    /// The kinds of buffer the element yields now.
    fn sources(&self) -> Vec<PadKind>;

    /// The kinds of buffer the element accepts now.
    fn sinks(&self) -> Vec<PadKind>;
}

/// A kind of element.
#[derive(Debug, Clone, Copy, PartialEq, Eq, Structural)]
pub enum Kind {
    /// Holds a prompt: accepts messages to append and prompts to replace
    /// it; its prompt is read by the elements downstream.
    Prompt,
    /// Calls the language model: accepts prompts, user messages, tool
    /// schemas and tool results; yields agent messages and tool uses.
    Inference,
}

/// No element of the kind exists for the backend.
#[derive(Debug, Clone, Copy, PartialEq, Eq, Structural)]
pub struct UnavailableError {
    pub kind: Kind,
    pub backend: Backend,
}

/// The configuration of an element did not parse.
#[derive(Debug, Clone)]
pub struct ConfigError {
    pub message: String,
}

/// Why an element could not be constructed.
#[derive(Debug, Clone)]
pub enum NewError {
    Unavailable(UnavailableError),
    Config(ConfigError),
}

impl NewError {
    /// Whether this is [`NewError::Unavailable`].
    pub fn is_unavailable(&self) -> (r: bool)
        ensures
            r == (*self is Unavailable),
    {
        matches!(self, NewError::Unavailable(_))
    }

    /// Whether this is [`NewError::Config`].
    pub fn is_config(&self) -> (r: bool)
        ensures
            r == (*self is Config),
    {
        matches!(self, NewError::Config(_))
    }
}

/// Constructing an element from its configuration. It does not block:
/// long work belongs to [`Element::init`].
pub trait New: Sized {
    /// The element of `kind` for `backend`, configured by `config`.
    fn new(kind: Kind, backend: Backend, config: &serde_json::Value) -> Result<Self, NewError>;
}

/// An element of a kind, for a backend.
pub enum Owned {
    Prompt(PromptElement),
}

impl Kind {
    /// Construct the element of this kind for `backend`, from its parsed
    /// configuration. A prompt element exists for the Anthropic backend only;
    /// no inference element exists here. Where the element exists, a
    /// configuration that did not parse is a [`NewError::Config`].
    pub fn new(self, backend: Backend, config: Result<Prompt, ConfigError>) -> (r: Result<
        Owned,
        NewError,
    >)
        ensures
            (self is Inference || backend is Independent) <==> (r matches Err(
                NewError::Unavailable(u),
            ) && u == (UnavailableError { kind: self, backend })),
            (self is Prompt && backend is Anthropic && config is Err) <==> (r matches Err(
                NewError::Config(c),
            ) && c == config->Err_0),
            r is Ok <==> (self is Prompt && backend is Anthropic && config is Ok),
            r is Ok ==> (r->Ok_0 matches Owned::Prompt(e) && e.prompt_spec() == config->Ok_0),
    {
        match self {
            Kind::Prompt => match backend {
                Backend::Independent => Err(
                    NewError::Unavailable(UnavailableError { kind: Kind::Prompt, backend }),
                ),
                Backend::Anthropic => match config {
                    Ok(p) => Ok(Owned::Prompt(PromptElement::new(p))),
                    Err(e) => Err(NewError::Config(e)),
                },
            },
            Kind::Inference => Err(
                NewError::Unavailable(UnavailableError { kind: Kind::Inference, backend }),
            ),
        }
    }
}

/// The prompt element: holds a prompt, accepts messages to append and
/// prompts to replace it.
pub struct PromptElement {
    prompt: Prompt,
}

impl PromptElement {
    /// The prompt held.
    pub closed spec fn prompt_spec(&self) -> Prompt {
        self.prompt
    }

    /// An element holding `prompt`.
    pub fn new(prompt: Prompt) -> (r: PromptElement)
        ensures
            r.prompt_spec() == prompt,
    {
        PromptElement { prompt }
    }

    /// The prompt held.
    pub fn prompt(&self) -> (r: &Prompt)
        ensures
            *r == self.prompt_spec(),
    {
        &self.prompt
    }

    /// Append `message` to the prompt. A message that breaks the turn order
    /// is rejected and the prompt stays as it was.
    pub fn push_message(&mut self, message: Message) -> (r: Result<(), TurnOrderError>)
        ensures
            r is Ok <==> may_follow(old(self).prompt_spec().messages_spec(), message),
            r is Ok ==> final(self).prompt_spec().messages_spec() == old(
                self,
            ).prompt_spec().messages_spec().push(message) && final(self).prompt_spec().system_spec()
                == old(self).prompt_spec().system_spec(),
            r is Err ==> final(self).prompt_spec() == old(self).prompt_spec(),
    {
        if !self.prompt.accepts(&message) {
            let n = self.prompt.messages().len();
            let last = self.prompt.messages()[n - 1].role;
            return Err(TurnOrderError { expected: crate::prompt::other(last) });
        }
        let mut p = Prompt::new();
        core::mem::swap(&mut self.prompt, &mut p);
        match p.add_message(message) {
            Ok(q) => {
                self.prompt = q;
                Ok(())
            },
            Err(e) => Err(e),
        }
    }

    /// Replace the prompt.
    pub fn replace(&mut self, prompt: Prompt)
        ensures
            final(self).prompt_spec() == prompt,
    {
        self.prompt = prompt;
    }
}

impl Info for PromptElement {
    open spec fn name_spec(&self) -> Seq<char> {
        "Prompt Source"@
    }

    open spec fn description_spec(&self) -> Seq<char> {
        "Provides copies of a prompt."@
    }

    fn name(&self) -> (r: String) {
        String::from_str("Prompt Source")
    }

    fn description(&self) -> (r: String) {
        String::from_str("Provides copies of a prompt.")
    }
}

impl Element for PromptElement {
    fn backend(&self) -> Backend {
        Backend::Anthropic
    }

    fn sources(&self) -> Vec<PadKind> {
        let mut v: Vec<PadKind> = Vec::new();
        v.push(PadKind::Prompt);
        v
    }

    fn sinks(&self) -> Vec<PadKind> {
        let mut v: Vec<PadKind> = Vec::new();
        v.push(PadKind::Message);
        v.push(PadKind::Prompt);
        v
    }
}

impl Push<Message> for PromptElement {
    fn push(&mut self, buffer: Message) -> Result<(), BoxedError> {
        match self.push_message(buffer) {
            Ok(()) => Ok(()),
            Err(e) => Err(BoxedError::from_error(&e)),
        }
    }
}

impl Push<Prompt> for PromptElement {
    fn push(&mut self, buffer: Prompt) -> Result<(), BoxedError> {
        self.replace(buffer);
        Ok(())
    }
}

impl Sink<Message, Pushes> for PromptElement {
}

impl Sink<Prompt, Pushes> for PromptElement {
}

/// A prompt source: yields prompts.
pub trait PromptSource<D: Direction>: Source<Prompt, D> + Info {
}

/// An inference element: accepts prompts and messages, yields messages.
pub trait Inference: Element + Push<Prompt> + Push<Message> + Pull<Message> {
}

} // verus!
