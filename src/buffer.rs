use vstd::prelude::*;
use vstd::string::*;

use crate::any::{Borrowed, Owned, Tag};
use crate::content::Content;
use crate::html::Html;
use crate::image::Image;
use crate::info::Info;
use crate::markdown::Markdown;
use crate::message::Message;
use crate::prompt::{Prompt, TurnOrderError};
use crate::tool;

verus! {

/// A piece of data that can flow through a pipeline: it can be viewed
/// without copying and converted, by value, into the closed sum of owned
/// buffers. Both forms carry the same kind.
pub trait Buffer: Info {
    /// The kind of the buffer.
    spec fn tag_spec(&self) -> Tag;

    /// The name that the owned form reports.
    spec fn owned_name_spec(&self) -> Seq<char>;

    /// A borrowed view of the buffer.
    fn as_borrowed(&self) -> (r: Borrowed<'_>)
        ensures
            r.tag() == self.tag_spec(),
    ;

    /// The buffer as an owned value of the closed sum.
    fn into_owned(self: Box<Self>) -> (r: Owned)
        ensures
            r.tag() == self.tag_spec(),
            r.name_spec() == self.owned_name_spec(),
            r.description_spec() == self.description_spec(),
    ;
}

/// A buffer that reports a failure. It flows through the same pads as data.
pub trait Error: Buffer {
    /// An error is of the error kind, and its owned form keeps its name.
    proof fn lemma_error(&self)
        ensures
            self.tag_spec() == Tag::Error,
            self.owned_name_spec() == self.name_spec(),
    ;
}

/// An error of any type, boxed with its name and description.
#[derive(Debug, Clone)]
pub struct BoxedError {
    pub name: String,
    pub description: String,
}

impl BoxedError {
    /// The boxed form of `e`.
    pub fn from_error<E: Info + ?Sized>(e: &E) -> (r: BoxedError)
        ensures
            r.name@ == e.name_spec(),
            r.description@ == e.description_spec(),
    {
        BoxedError { name: e.name(), description: e.description() }
    }
}

impl Info for BoxedError {
    open spec fn name_spec(&self) -> Seq<char> {
        self.name@
    }

    open spec fn description_spec(&self) -> Seq<char> {
        self.description@
    }

    fn name(&self) -> (r: String) {
        self.name.clone()
    }

    fn description(&self) -> (r: String) {
        self.description.clone()
    }
}

impl Buffer for BoxedError {
    open spec fn tag_spec(&self) -> Tag {
        Tag::Error
    }

    open spec fn owned_name_spec(&self) -> Seq<char> {
        self.name_spec()
    }

    fn as_borrowed(&self) -> (r: Borrowed<'_>) {
        Borrowed::Error(self)
    }

    fn into_owned(self: Box<Self>) -> (r: Owned) {
        Owned::Error(self)
    }
}

impl Error for BoxedError {
    proof fn lemma_error(&self) {
    }
}

/// An error that is a static message.
#[derive(Debug, Clone, Copy)]
pub struct ErrorStaticString {
    pub inner: &'static str,
}

impl ErrorStaticString {
    /// An error with the message `inner`.
    pub fn new(inner: &'static str) -> (r: ErrorStaticString)
        ensures
            r.inner == inner,
    {
        ErrorStaticString { inner }
    }
}

impl Info for ErrorStaticString {
    open spec fn name_spec(&self) -> Seq<char> {
        "ErrorStaticString"@
    }

    open spec fn description_spec(&self) -> Seq<char> {
        self.inner@
    }

    fn name(&self) -> (r: String) {
        String::from_str("ErrorStaticString")
    }

    fn description(&self) -> (r: String) {
        String::from_str(self.inner)
    }
}

impl Buffer for ErrorStaticString {
    open spec fn tag_spec(&self) -> Tag {
        Tag::Error
    }

    open spec fn owned_name_spec(&self) -> Seq<char> {
        self.name_spec()
    }

    fn as_borrowed(&self) -> (r: Borrowed<'_>) {
        Borrowed::Error(self)
    }

    fn into_owned(self: Box<Self>) -> (r: Owned) {
        Owned::Error(Box::new(BoxedError::from_error(&*self)))
    }
}

impl Error for ErrorStaticString {
    proof fn lemma_error(&self) {
    }
}

impl<O: Buffer, E: Error + 'static> Info for Result<O, E> {
    open spec fn name_spec(&self) -> Seq<char> {
        match self {
            Ok(o) => "Ok("@ + o.name_spec() + ")"@,
            Err(e) => "Err("@ + e.name_spec() + ")"@,
        }
    }

    open spec fn description_spec(&self) -> Seq<char> {
        match self {
            Ok(o) => o.description_spec(),
            Err(e) => e.description_spec(),
        }
    }

    fn name(&self) -> (r: String) {
        let (mut r, inner) = match self {
            Ok(o) => (String::from_str("Ok("), o.name()),
            Err(e) => (String::from_str("Err("), e.name()),
        };
        r.append(inner.as_str());
        r.append(")");
        r
    }

    fn description(&self) -> (r: String) {
        match self {
            Ok(o) => o.description(),
            Err(e) => e.description(),
        }
    }
}

/// A result is a buffer: its success side delegates to the inner buffer, its
/// failure side is an error buffer.
impl<O: Buffer, E: Error + 'static> Buffer for Result<O, E> {
    open spec fn tag_spec(&self) -> Tag {
        match self {
            Ok(o) => o.tag_spec(),
            Err(e) => Tag::Error,
        }
    }

    open spec fn owned_name_spec(&self) -> Seq<char> {
        match self {
            Ok(o) => o.owned_name_spec(),
            Err(e) => e.name_spec(),
        }
    }

    fn as_borrowed(&self) -> (r: Borrowed<'_>) {
        match self {
            Ok(o) => o.as_borrowed(),
            Err(e) => Borrowed::Error(e),
        }
    }

    fn into_owned(self: Box<Self>) -> (r: Owned) {
        match *self {
            Ok(o) => Box::new(o).into_owned(),
            Err(e) => Owned::Error(Box::new(BoxedError::from_error(&e))),
        }
    }
}

impl Info for Markdown {
    open spec fn name_spec(&self) -> Seq<char> {
        "Markdown"@
    }

    open spec fn description_spec(&self) -> Seq<char> {
        "A Markdown string."@
    }

    fn name(&self) -> (r: String) {
        String::from_str("Markdown")
    }

    fn description(&self) -> (r: String) {
        String::from_str("A Markdown string.")
    }
}

impl Buffer for Markdown {
    open spec fn tag_spec(&self) -> Tag {
        Tag::Markdown
    }

    open spec fn owned_name_spec(&self) -> Seq<char> {
        self.name_spec()
    }

    fn as_borrowed(&self) -> (r: Borrowed<'_>) {
        Borrowed::Markdown(self)
    }

    fn into_owned(self: Box<Self>) -> (r: Owned) {
        Owned::Markdown(*self)
    }
}

impl Info for Html {
    open spec fn name_spec(&self) -> Seq<char> {
        "Html"@
    }

    open spec fn description_spec(&self) -> Seq<char> {
        "An HTML string."@
    }

    fn name(&self) -> (r: String) {
        String::from_str("Html")
    }

    fn description(&self) -> (r: String) {
        String::from_str("An HTML string.")
    }
}

impl Buffer for Html {
    open spec fn tag_spec(&self) -> Tag {
        Tag::Html
    }

    open spec fn owned_name_spec(&self) -> Seq<char> {
        self.name_spec()
    }

    fn as_borrowed(&self) -> (r: Borrowed<'_>) {
        Borrowed::Html(self)
    }

    fn into_owned(self: Box<Self>) -> (r: Owned) {
        Owned::Html(*self)
    }
}

impl Info for Prompt {
    open spec fn name_spec(&self) -> Seq<char> {
        "Prompt"@
    }

    open spec fn description_spec(&self) -> Seq<char> {
        "A prompt: system content and alternating messages."@
    }

    fn name(&self) -> (r: String) {
        String::from_str("Prompt")
    }

    fn description(&self) -> (r: String) {
        String::from_str("A prompt: system content and alternating messages.")
    }
}

impl Buffer for Prompt {
    open spec fn tag_spec(&self) -> Tag {
        Tag::Prompt
    }

    open spec fn owned_name_spec(&self) -> Seq<char> {
        self.name_spec()
    }

    fn as_borrowed(&self) -> (r: Borrowed<'_>) {
        Borrowed::Prompt(self)
    }

    fn into_owned(self: Box<Self>) -> (r: Owned) {
        Owned::Prompt(self)
    }
}

impl Info for Message {
    open spec fn name_spec(&self) -> Seq<char> {
        "Message"@
    }

    open spec fn description_spec(&self) -> Seq<char> {
        "Content with a role."@
    }

    fn name(&self) -> (r: String) {
        String::from_str("Message")
    }

    fn description(&self) -> (r: String) {
        String::from_str("Content with a role.")
    }
}

impl Buffer for Message {
    open spec fn tag_spec(&self) -> Tag {
        Tag::Message
    }

    open spec fn owned_name_spec(&self) -> Seq<char> {
        self.name_spec()
    }

    fn as_borrowed(&self) -> (r: Borrowed<'_>) {
        Borrowed::Message(self)
    }

    fn into_owned(self: Box<Self>) -> (r: Owned) {
        Owned::Message(self)
    }
}

impl Info for Content {
    open spec fn name_spec(&self) -> Seq<char> {
        "Content"@
    }

    open spec fn description_spec(&self) -> Seq<char> {
        "Content of one or more parts."@
    }

    fn name(&self) -> (r: String) {
        String::from_str("Content")
    }

    fn description(&self) -> (r: String) {
        String::from_str("Content of one or more parts.")
    }
}

impl Buffer for Content {
    open spec fn tag_spec(&self) -> Tag {
        Tag::Content
    }

    open spec fn owned_name_spec(&self) -> Seq<char> {
        self.name_spec()
    }

    fn as_borrowed(&self) -> (r: Borrowed<'_>) {
        Borrowed::Content(self)
    }

    fn into_owned(self: Box<Self>) -> (r: Owned) {
        Owned::Content(self)
    }
}

impl Info for Image {
    open spec fn name_spec(&self) -> Seq<char> {
        "Image"@
    }

    open spec fn description_spec(&self) -> Seq<char> {
        "A base64 encoded image."@
    }

    fn name(&self) -> (r: String) {
        String::from_str("Image")
    }

    fn description(&self) -> (r: String) {
        String::from_str("A base64 encoded image.")
    }
}

impl Buffer for Image {
    open spec fn tag_spec(&self) -> Tag {
        Tag::Image
    }

    open spec fn owned_name_spec(&self) -> Seq<char> {
        self.name_spec()
    }

    fn as_borrowed(&self) -> (r: Borrowed<'_>) {
        Borrowed::Image(self)
    }

    fn into_owned(self: Box<Self>) -> (r: Owned) {
        Owned::Image(self)
    }
}

impl Info for serde_json::Value {
    open spec fn name_spec(&self) -> Seq<char> {
        "serde_json::Value"@
    }

    open spec fn description_spec(&self) -> Seq<char> {
        "A JSON value."@
    }

    fn name(&self) -> (r: String) {
        String::from_str("serde_json::Value")
    }

    fn description(&self) -> (r: String) {
        String::from_str("A JSON value.")
    }
}

impl Buffer for serde_json::Value {
    open spec fn tag_spec(&self) -> Tag {
        Tag::Schema
    }

    open spec fn owned_name_spec(&self) -> Seq<char> {
        self.name_spec()
    }

    fn as_borrowed(&self) -> (r: Borrowed<'_>) {
        Borrowed::Schema(self)
    }

    fn into_owned(self: Box<Self>) -> (r: Owned) {
        Owned::Schema(self)
    }
}

impl Info for TurnOrderError {
    open spec fn name_spec(&self) -> Seq<char> {
        "TurnOrderError"@
    }

    open spec fn description_spec(&self) -> Seq<char> {
        "A message broke the alternation of turns."@
    }

    fn name(&self) -> (r: String) {
        String::from_str("TurnOrderError")
    }

    fn description(&self) -> (r: String) {
        String::from_str("A message broke the alternation of turns.")
    }
}

impl Buffer for TurnOrderError {
    open spec fn tag_spec(&self) -> Tag {
        Tag::Error
    }

    open spec fn owned_name_spec(&self) -> Seq<char> {
        self.name_spec()
    }

    fn as_borrowed(&self) -> (r: Borrowed<'_>) {
        Borrowed::Error(self)
    }

    fn into_owned(self: Box<Self>) -> (r: Owned) {
        Owned::Error(Box::new(BoxedError::from_error(&*self)))
    }
}

impl Error for TurnOrderError {
    proof fn lemma_error(&self) {
    }
}

impl Info for tool::Use {
    open spec fn name_spec(&self) -> Seq<char> {
        self.name@
    }

    open spec fn description_spec(&self) -> Seq<char> {
        "A tool use requested by the agent."@
    }

    fn name(&self) -> (r: String) {
        self.name.clone()
    }

    fn description(&self) -> (r: String) {
        String::from_str("A tool use requested by the agent.")
    }
}

impl Buffer for tool::Use {
    open spec fn tag_spec(&self) -> Tag {
        Tag::ToolCall
    }

    open spec fn owned_name_spec(&self) -> Seq<char> {
        self.name_spec()
    }

    fn as_borrowed(&self) -> (r: Borrowed<'_>) {
        Borrowed::ToolCall(self)
    }

    fn into_owned(self: Box<Self>) -> (r: Owned) {
        Owned::ToolCall(self)
    }
}

impl Info for tool::Result {
    open spec fn name_spec(&self) -> Seq<char> {
        "ToolResult"@
    }

    open spec fn description_spec(&self) -> Seq<char> {
        "The result of a tool use."@
    }

    fn name(&self) -> (r: String) {
        String::from_str("ToolResult")
    }

    fn description(&self) -> (r: String) {
        String::from_str("The result of a tool use.")
    }
}

/// A tool result is of the error kind where it reports a failure.
impl Buffer for tool::Result {
    open spec fn tag_spec(&self) -> Tag {
        if self.is_error {
            Tag::Error
        } else {
            Tag::ToolOk
        }
    }

    open spec fn owned_name_spec(&self) -> Seq<char> {
        self.name_spec()
    }

    fn as_borrowed(&self) -> (r: Borrowed<'_>) {
        if self.is_error {
            Borrowed::Error(self)
        } else {
            Borrowed::ToolOk(self)
        }
    }

    fn into_owned(self: Box<Self>) -> (r: Owned) {
        if self.is_error {
            Owned::Error(Box::new(BoxedError::from_error(&*self)))
        } else {
            Owned::ToolOk(self)
        }
    }
}


/// The failure side of a result converts to an owned error with the same
/// kind, name and description as the error converted on its own.
pub proof fn lemma_error_side_converts_as_error<O: Buffer, E: Error + 'static>(e: E)
    ensures
        Err::<O, E>(e).tag_spec() == Tag::Error,
        Err::<O, E>(e).tag_spec() == e.tag_spec(),
        Err::<O, E>(e).owned_name_spec() == e.owned_name_spec(),
        Err::<O, E>(e).description_spec() == e.description_spec(),
{
    e.lemma_error();
}

} // verus!
