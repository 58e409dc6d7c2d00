use vstd::prelude::*;

use crate::image::Image;
use crate::tool;

verus! {

/// One owned part of a [`Content`].
pub enum Part {
    /// Text.
    Text { text: String },
    /// An image.
    Image { image: Image },
    /// A tool use requested by the agent.
    ToolUse { call: tool::Use },
    /// The result of a tool use.
    ToolResult { result: tool::Result },
}

/// The content of a message: a single text or an ordered list of parts.
pub enum Content {
    /// A single text part.
    SinglePart(String),
    /// One or more parts, in order.
    MultiPart(Vec<Part>),
}

/// A borrowed view of one part of a [`Content`]. A tool result is viewed as
/// `ToolOk` or `ToolError` after its error flag.
pub enum Block<'a> {
    /// Text block.
    Text { text: &'a str },
    /// Image block.
    Image { image: &'a Image },
    /// Tool use.
    ToolCall { call: &'a tool::Use },
    /// Successful tool result.
    ToolOk { ok: &'a tool::Result },
    /// Error tool result.
    ToolError { error: &'a tool::Result },
}

/// Whether the view `b` shows the part `p`: same variant, same value.
pub open spec fn views(b: Block, p: Part) -> bool {
    match (b, p) {
        (Block::Text { text }, Part::Text { text: t }) => text@ == t@,
        (Block::Image { image }, Part::Image { image: i }) => *image == i,
        (Block::ToolCall { call }, Part::ToolUse { call: c }) => *call == c,
        (Block::ToolOk { ok }, Part::ToolResult { result }) => *ok == result && !result.is_error,
        (Block::ToolError { error }, Part::ToolResult { result }) => *error == result
            && result.is_error,
        _ => false,
    }
}

impl Content {
    /// The ordered parts of the content; a single text is one text part.
    pub open spec fn parts(&self) -> Seq<Part> {
        match self {
            Content::SinglePart(s) => seq![Part::Text { text: *s }],
            Content::MultiPart(v) => v@,
        }
    }

    /// Content of a single text part.
    pub fn text(text: String) -> (r: Content)
        ensures
            r == Content::SinglePart(text),
    {
        Content::SinglePart(text)
    }

    /// Content made of the given parts, in order.
    pub fn from_parts(parts: Vec<Part>) -> (r: Content)
        ensures
            r.parts() == parts@,
            r is MultiPart,
    {
        Content::MultiPart(parts)
    }

    /// The parts, in order, as owned values.
    pub fn into_parts(self) -> (r: Vec<Part>)
        ensures
            r@ == self.parts(),
    {
        match self {
            Content::SinglePart(s) => {
                let mut r: Vec<Part> = Vec::new();
                r.push(Part::Text { text: s });
                r
            },
            Content::MultiPart(v) => v,
        }
    }

    /// Content of several parts: the parts of `self`, then those of `other`.
    /// A single text becomes the first part.
    pub fn join(self, other: Content) -> (r: Content)
        ensures
            r is MultiPart,
            r.parts() == self.parts() + other.parts(),
    {
        let mut v = self.into_parts();
        let mut w = other.into_parts();
        v.append(&mut w);
        Content::MultiPart(v)
    }

    /// The number of parts.
    pub fn len(&self) -> (r: usize)
        ensures
            r == self.parts().len(),
    {
        match self {
            Content::SinglePart(_) => 1,
            Content::MultiPart(v) => v.len(),
        }
    }

    /// Borrowed views of the parts, in order.
    pub fn blocks<'a>(&'a self) -> (r: Vec<Block<'a>>)
        ensures
            r@.len() == self.parts().len(),
            forall|i: int| 0 <= i < r@.len() ==> views(#[trigger] r@[i], self.parts()[i]),
    {
        match self {
            Content::SinglePart(s) => {
                let mut r: Vec<Block<'a>> = Vec::new();
                r.push(Block::Text { text: s.as_str() });
                r
            },
            Content::MultiPart(v) => {
                let mut r: Vec<Block<'a>> = Vec::new();
                let mut i: usize = 0;
                while i < v.len()
                    invariant
                        i <= v@.len(),
                        r@.len() == i,
                        forall|j: int| 0 <= j < i ==> views(#[trigger] r@[j], v@[j]),
                    decreases v@.len() - i,
                {
                    r.push(view_of(&v[i]));
                    i = i + 1;
                }
                r
            },
        }
    }
}

/// The borrowed view of one part.
pub fn view_of<'a>(p: &'a Part) -> (r: Block<'a>)
    ensures
        views(r, *p),
{
    match p {
        Part::Text { text } => Block::Text { text: text.as_str() },
        Part::Image { image } => Block::Image { image },
        Part::ToolUse { call } => Block::ToolCall { call },
        Part::ToolResult { result } => {
            if result.is_error {
                Block::ToolError { error: result }
            } else {
                Block::ToolOk { ok: result }
            }
        },
    }
}

} // verus!
