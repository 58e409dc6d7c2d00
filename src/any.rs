use vstd::prelude::*;

use crate::buffer::BoxedError;
use crate::info::Info;
use crate::content::Content;
use crate::html::Html;
use crate::image::Image;
use crate::markdown::Markdown;
use crate::message::Message;
use crate::prompt::Prompt;
use crate::tool;

verus! {

/// The kind of a buffer, shared by its borrowed and its owned form.
#[derive(Debug, Clone, Copy, PartialEq, Eq, Structural)]
pub enum Tag {
    Markdown,
    Html,
    Prompt,
    Message,
    Content,
    Image,
    ToolCall,
    ToolOk,
    Schema,
    Error,
}

/// Any kind of owned buffer.
pub enum Owned {
    Markdown(Markdown),
    Html(Html),
    Prompt(Box<Prompt>),
    Message(Box<Message>),
    Content(Box<Content>),
    Image(Box<Image>),
    ToolCall(Box<tool::Use>),
    ToolOk(Box<tool::Result>),
    Schema(Box<serde_json::Value>),
    Error(Box<BoxedError>),
}

/// Any kind of borrowed buffer.
pub enum Borrowed<'a> {
    Markdown(&'a Markdown),
    Html(&'a Html),
    Prompt(&'a Prompt),
    Message(&'a Message),
    Content(&'a Content),
    Image(&'a Image),
    ToolCall(&'a tool::Use),
    ToolOk(&'a tool::Result),
    Schema(&'a serde_json::Value),
    Error(&'a dyn Info),
}

impl Owned {
    /// The kind of the buffer held.
    pub open spec fn tag(&self) -> Tag {
        match self {
            Owned::Markdown(_) => Tag::Markdown,
            Owned::Html(_) => Tag::Html,
            Owned::Prompt(_) => Tag::Prompt,
            Owned::Message(_) => Tag::Message,
            Owned::Content(_) => Tag::Content,
            Owned::Image(_) => Tag::Image,
            Owned::ToolCall(_) => Tag::ToolCall,
            Owned::ToolOk(_) => Tag::ToolOk,
            Owned::Schema(_) => Tag::Schema,
            Owned::Error(_) => Tag::Error,
        }
    }

    /// The name of the buffer held.
    pub open spec fn name_spec(&self) -> Seq<char> {
        match self {
            Owned::Markdown(b) => b.name_spec(),
            Owned::Html(b) => b.name_spec(),
            Owned::Prompt(b) => b.name_spec(),
            Owned::Message(b) => b.name_spec(),
            Owned::Content(b) => b.name_spec(),
            Owned::Image(b) => b.name_spec(),
            Owned::ToolCall(b) => b.name_spec(),
            Owned::ToolOk(b) => b.name_spec(),
            Owned::Schema(b) => b.name_spec(),
            Owned::Error(b) => b.name_spec(),
        }
    }

    /// The description of the buffer held.
    pub open spec fn description_spec(&self) -> Seq<char> {
        match self {
            Owned::Markdown(b) => b.description_spec(),
            Owned::Html(b) => b.description_spec(),
            Owned::Prompt(b) => b.description_spec(),
            Owned::Message(b) => b.description_spec(),
            Owned::Content(b) => b.description_spec(),
            Owned::Image(b) => b.description_spec(),
            Owned::ToolCall(b) => b.description_spec(),
            Owned::ToolOk(b) => b.description_spec(),
            Owned::Schema(b) => b.description_spec(),
            Owned::Error(b) => b.description_spec(),
        }
    }

    /// The kind of the buffer held.
    pub fn kind(&self) -> (r: Tag)
        ensures
            r == self.tag(),
    {
        match self {
            Owned::Markdown(_) => Tag::Markdown,
            Owned::Html(_) => Tag::Html,
            Owned::Prompt(_) => Tag::Prompt,
            Owned::Message(_) => Tag::Message,
            Owned::Content(_) => Tag::Content,
            Owned::Image(_) => Tag::Image,
            Owned::ToolCall(_) => Tag::ToolCall,
            Owned::ToolOk(_) => Tag::ToolOk,
            Owned::Schema(_) => Tag::Schema,
            Owned::Error(_) => Tag::Error,
        }
    }

    /// The description of the buffer held.
    pub fn description(&self) -> (r: String)
        ensures
            r@ == self.description_spec(),
    {
        match self {
            Owned::Markdown(b) => b.description(),
            Owned::Html(b) => b.description(),
            Owned::Prompt(b) => b.description(),
            Owned::Message(b) => b.description(),
            Owned::Content(b) => b.description(),
            Owned::Image(b) => b.description(),
            Owned::ToolCall(b) => b.description(),
            Owned::ToolOk(b) => b.description(),
            Owned::Schema(b) => b.description(),
            Owned::Error(b) => b.description(),
        }
    }

    /// The name of the buffer held.
    pub fn name(&self) -> (r: String)
        ensures
            r@ == self.name_spec(),
    {
        match self {
            Owned::Markdown(b) => b.name(),
            Owned::Html(b) => b.name(),
            Owned::Prompt(b) => b.name(),
            Owned::Message(b) => b.name(),
            Owned::Content(b) => b.name(),
            Owned::Image(b) => b.name(),
            Owned::ToolCall(b) => b.name(),
            Owned::ToolOk(b) => b.name(),
            Owned::Schema(b) => b.name(),
            Owned::Error(b) => b.name(),
        }
    }
}

impl<'a> Borrowed<'a> {
    /// The kind of the buffer viewed.
    pub open spec fn tag(&self) -> Tag {
        match self {
            Borrowed::Markdown(_) => Tag::Markdown,
            Borrowed::Html(_) => Tag::Html,
            Borrowed::Prompt(_) => Tag::Prompt,
            Borrowed::Message(_) => Tag::Message,
            Borrowed::Content(_) => Tag::Content,
            Borrowed::Image(_) => Tag::Image,
            Borrowed::ToolCall(_) => Tag::ToolCall,
            Borrowed::ToolOk(_) => Tag::ToolOk,
            Borrowed::Schema(_) => Tag::Schema,
            Borrowed::Error(_) => Tag::Error,
        }
    }

    /// The kind of the buffer viewed.
    pub fn kind(&self) -> (r: Tag)
        ensures
            r == self.tag(),
    {
        match self {
            Borrowed::Markdown(_) => Tag::Markdown,
            Borrowed::Html(_) => Tag::Html,
            Borrowed::Prompt(_) => Tag::Prompt,
            Borrowed::Message(_) => Tag::Message,
            Borrowed::Content(_) => Tag::Content,
            Borrowed::Image(_) => Tag::Image,
            Borrowed::ToolCall(_) => Tag::ToolCall,
            Borrowed::ToolOk(_) => Tag::ToolOk,
            Borrowed::Schema(_) => Tag::Schema,
            Borrowed::Error(_) => Tag::Error,
        }
    }
}

} // verus!
