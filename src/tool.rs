use vstd::prelude::*;

use crate::content::{Content, Part};

verus! {

/// A JSON value, carried through unread.
#[verifier::external_type_specification]
#[verifier::external_body]
pub struct ExJsonValue(serde_json::Value);

/// The message of a failed tool result: its text, where the content is a
/// single text; the first part, where that is text; else nothing.
pub open spec fn message_of(c: Content) -> Seq<char> {
    match c {
        Content::SinglePart(s) => s@,
        Content::MultiPart(v) => if v@.len() > 0 && v@[0] is Text {
            v@[0]->Text_text@
        } else {
            Seq::empty()
        },
    }
}

/// A tool use requested by the agent: an id for correlation, the tool's name
/// and its arguments.
pub struct Use {
    pub id: String,
    pub name: String,
    pub args: serde_json::Value,
}

/// The return of a tool use: the id of the use it answers, its content and
/// whether it is an error.
pub struct Result {
    pub id: String,
    pub content: Content,
    pub is_error: bool,
}

impl Use {
    /// ID of the tool call.
    pub fn id(&self) -> (r: &str)
        ensures
            r@ == self.id@,
    {
        self.id.as_str()
    }

    /// The arguments for the tool.
    pub fn args(&self) -> (r: &serde_json::Value)
        ensures
            r == &self.args,
    {
        &self.args
    }
}

impl Result {
    /// ID of the tool use this answers.
    pub fn id(&self) -> (r: &str)
        ensures
            r@ == self.id@,
    {
        self.id.as_str()
    }

    /// The returned content.
    pub fn value(&self) -> (r: &Content)
        ensures
            r == &self.content,
    {
        &self.content
    }

    /// The error message, for the agent.
    pub fn message(&self) -> (r: &str)
        ensures
            r@ == message_of(self.content),
    {
        proof {
            reveal_strlit("");
        }
        match &self.content {
            Content::SinglePart(s) => s.as_str(),
            Content::MultiPart(v) => {
                if v.len() > 0 {
                    match &v[0] {
                        Part::Text { text } => text.as_str(),
                        _ => "",
                    }
                } else {
                    ""
                }
            },
        }
    }

    /// Whether the return is an error.
    pub fn is_error(&self) -> (r: bool)
        ensures
            r == self.is_error,
    {
        self.is_error
    }
}

} // verus!
