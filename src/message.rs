use vstd::prelude::*;

use crate::content::{Content, Part};

verus! {

/// The role of a [`Message`]. On backends where not all roles exist, the role
/// is derived from the shape of the content.
#[derive(Debug, Clone, Copy, PartialEq, Eq, Structural)]
pub enum Role {
    /// A message generated by the agent.
    Agent,
    /// A message from the end user.
    User,
    /// A system message, giving the agent instruction.
    System,
    /// The agent decided to use a tool.
    ToolUse,
    /// The result of a tool use, with an id matching it.
    ToolResult,
}

/// The role a message carries on the wire: the backend knows only two.
#[derive(Debug, Clone, Copy, PartialEq, Eq, Structural)]
pub enum WireRole {
    User,
    Assistant,
}

/// The effective role of a message with wire role `wire` and content `c`:
/// a single part keeps the plain role; of several parts only the first is
/// inspected: a tool result first makes the whole message a tool result,
/// whatever its wire role, and a tool use first on an assistant message
/// makes it a tool use.
pub open spec fn role_of(wire: WireRole, c: Content) -> Role {
    if c is MultiPart && c.parts().len() > 0 && c.parts()[0] is ToolResult {
        Role::ToolResult
    } else {
        match wire {
            WireRole::User => Role::User,
            WireRole::Assistant => if c is MultiPart && c.parts().len() > 0
                && c.parts()[0] is ToolUse {
                Role::ToolUse
            } else {
                Role::Agent
            },
        }
    }
}

/// A [`Content`] with a wire role.
pub struct Message {
    pub role: WireRole,
    pub content: Content,
}

/// Any kind of (owned) [`Message`], after its effective role.
pub enum Any {
    Agent(Box<Message>),
    User(Box<Message>),
    System(Box<Message>),
    ToolUse(Box<Message>),
    ToolReturn(Box<Message>),
}

impl Any {
    /// The role that routed the message here.
    pub open spec fn role(&self) -> Role {
        match self {
            Any::Agent(_) => Role::Agent,
            Any::User(_) => Role::User,
            Any::System(_) => Role::System,
            Any::ToolUse(_) => Role::ToolUse,
            Any::ToolReturn(_) => Role::ToolResult,
        }
    }

    /// The message held.
    pub open spec fn message(&self) -> Message {
        match self {
            Any::Agent(m) => **m,
            Any::User(m) => **m,
            Any::System(m) => **m,
            Any::ToolUse(m) => **m,
            Any::ToolReturn(m) => **m,
        }
    }
}

impl Message {
    /// A message with the given wire role and content.
    pub fn new(role: WireRole, content: Content) -> (r: Message)
        ensures
            r.role == role,
            r.content == content,
    {
        Message { role, content }
    }

    /// The effective [`Role`] of the message.
    pub fn role(&self) -> (r: Role)
        ensures
            r == role_of(self.role, self.content),
    {
        match &self.content {
            Content::SinglePart(_) => match self.role {
                WireRole::User => Role::User,
                WireRole::Assistant => Role::Agent,
            },
            Content::MultiPart(v) => {
                if v.len() > 0 && matches!(v[0], Part::ToolResult { .. }) {
                    Role::ToolResult
                } else {
                    match self.role {
                        WireRole::User => Role::User,
                        WireRole::Assistant => {
                            if v.len() > 0 && matches!(v[0], Part::ToolUse { .. }) {
                                Role::ToolUse
                            } else {
                                Role::Agent
                            }
                        },
                    }
                }
            },
        }
    }

    /// The content of the message.
    pub fn content(&self) -> (r: &Content)
        ensures
            r == &self.content,
    {
        &self.content
    }

    /// Discard the role and return the content.
    pub fn into_content(self) -> (r: Content)
        ensures
            r == self.content,
    {
        self.content
    }

    /// The message, routed by its effective role.
    pub fn into_any(self) -> (r: Any)
        ensures
            r.role() == role_of(self.role, self.content),
            r.message() == self,
    {
        let role = self.role();
        match role {
            Role::Agent => Any::Agent(Box::new(self)),
            Role::User => Any::User(Box::new(self)),
            Role::System => Any::System(Box::new(self)),
            Role::ToolUse => Any::ToolUse(Box::new(self)),
            Role::ToolResult => Any::ToolReturn(Box::new(self)),
        }
    }
}

/// Of a message with several parts, a tool result first makes the whole
/// message a tool result, whatever its wire role; a message of a single
/// text part keeps the plain role, user or agent after its wire role.
pub proof fn lemma_first_part_decides(wire: WireRole, c: Content, text: String)
    requires
        c is MultiPart,
        c.parts().len() > 0,
        c.parts()[0] is ToolResult,
    ensures
        role_of(wire, c) == Role::ToolResult,
        role_of(WireRole::User, Content::SinglePart(text)) == Role::User,
        role_of(WireRole::Assistant, Content::SinglePart(text)) == Role::Agent,
{
}

/// Of an assistant message with several parts, a tool use first makes the
/// whole message a tool use.
pub proof fn lemma_first_tool_use_decides(c: Content)
    requires
        c is MultiPart,
        c.parts().len() > 0,
        c.parts()[0] is ToolUse,
    ensures
        role_of(WireRole::Assistant, c) == Role::ToolUse,
{
}

} // verus!
