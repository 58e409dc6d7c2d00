use vstd::prelude::*;
use vstd::string::*;

use crate::content::{Content, Part};
use crate::image::format_subtype;
use crate::message::{role_of, Message, Role};
use crate::tool::message_of;

verus! {

/// A heading level.
#[derive(Debug, Clone, Copy, PartialEq, Eq, Structural)]
pub enum HeadingLevel {
    H1,
    H2,
    H3,
    H4,
    H5,
    H6,
}

/// The number of a heading level.
pub open spec fn level_number(l: HeadingLevel) -> nat {
    match l {
        HeadingLevel::H1 => 1,
        HeadingLevel::H2 => 2,
        HeadingLevel::H3 => 3,
        HeadingLevel::H4 => 4,
        HeadingLevel::H5 => 5,
        HeadingLevel::H6 => 6,
    }
}

/// Options for rendering Markdown and HTML.
#[derive(Debug, Clone, Copy, PartialEq, Eq, Structural)]
pub struct Options {
    /// Flags of the Markdown parser, as bits.
    pub inner: u32,
    /// Whether to include the system prompt.
    pub system: bool,
    /// Whether to include tool uses.
    pub tool_use: bool,
    /// Whether to include tool results.
    pub tool_results: bool,
    /// Whether to add a `role` attribute to the headings.
    pub attrs: bool,
    /// The level of the headings; the third if none.
    pub heading_level: Option<HeadingLevel>,
}

/// The default options: no parser flag, nothing optional included.
pub open spec fn default_options() -> Options {
    Options {
        inner: 0,
        system: false,
        tool_use: false,
        tool_results: false,
        attrs: false,
        heading_level: None,
    }
}

/// The verbose options: system prompt, tool uses, tool results and
/// attributes included.
pub open spec fn verbose_options() -> Options {
    Options {
        inner: 0,
        system: true,
        tool_use: true,
        tool_results: true,
        attrs: true,
        heading_level: None,
    }
}

impl Options {
    /// The verbose options.
    pub fn verbose() -> (r: Options)
        ensures
            r == verbose_options(),
    {
        Options {
            inner: 0,
            system: true,
            tool_use: true,
            tool_results: true,
            attrs: true,
            heading_level: None,
        }
    }

    /// The same options, with tool uses included.
    pub fn with_tool_use(self) -> (r: Options)
        ensures
            r == (Options { tool_use: true, ..self }),
    {
        Options { tool_use: true, ..self }
    }

    /// The same options, with tool results included.
    pub fn with_tool_results(self) -> (r: Options)
        ensures
            r == (Options { tool_results: true, ..self }),
    {
        Options { tool_results: true, ..self }
    }

    /// The same options, with the system prompt included.
    pub fn with_system(self) -> (r: Options)
        ensures
            r == (Options { system: true, ..self }),
    {
        Options { system: true, ..self }
    }

    /// The default options with the given parser flags.
    pub fn from_flags(inner: u32) -> (r: Options)
        ensures
            r == (Options { inner, ..default_options() }),
    {
        Options { inner, ..Options::default() }
    }
}

impl Default for Options {
    fn default() -> (r: Options)
        ensures
            r == default_options(),
    {
        Options {
            inner: 0,
            system: false,
            tool_use: false,
            tool_results: false,
            attrs: false,
            heading_level: None,
        }
    }
}

/// `n` hash signs.
pub open spec fn hashes(n: nat) -> Seq<char>
    decreases n,
{
    if n == 0 {
        Seq::empty()
    } else {
        hashes((n - 1) as nat) + "#"@
    }
}

/// The heading level in use.
pub open spec fn level_of(o: Options) -> nat {
    match o.heading_level {
        Some(l) => level_number(l),
        None => 3,
    }
}

/// Block `b` after the blocks `acc`: an empty block adds nothing, the first
/// block stands alone, and a blank line separates the others.
pub open spec fn join_block(acc: Seq<char>, b: Seq<char>) -> Seq<char> {
    if b.len() == 0 {
        acc
    } else if acc.len() == 0 {
        b
    } else {
        acc + "\n\n"@ + b
    }
}

/// A heading with `title`, and a `role` attribute `attr` where asked for.
pub open spec fn heading_block(o: Options, title: Seq<char>, attr: Seq<char>) -> Seq<char> {
    hashes(level_of(o)) + " "@ + title + (if o.attrs {
        " {role="@ + attr + "}"@
    } else {
        Seq::<char>::empty()
    })
}

/// The block of a tool use: its id and name as JSON, fenced.
pub open spec fn tool_use_block(id: Seq<char>, name: Seq<char>) -> Seq<char> {
    "```json\n{\"type\":\"tool_use\",\"id\":\""@ + id + "\",\"name\":\""@ + name + "\"}\n```"@
}

/// The block of one part of a content; empty where the part is left out.
pub open spec fn part_block(p: Part, o: Options) -> Seq<char> {
    match p {
        Part::Text { text } => text@,
        Part::Image { image } => "![image](data:image/"@ + format_subtype(image.format)
            + ";base64,"@ + image.base64@ + ")"@,
        Part::ToolUse { call } => if o.tool_use {
            tool_use_block(call.id@, call.name@)
        } else {
            Seq::empty()
        },
        Part::ToolResult { result } => if o.tool_results {
            "```\n"@ + message_of(result.content) + "\n```"@
        } else {
            Seq::empty()
        },
    }
}

/// The blocks `acc`, then the parts `ps`, in order.
pub open spec fn parts_md(acc: Seq<char>, ps: Seq<Part>, o: Options) -> Seq<char>
    decreases ps.len(),
{
    if ps.len() == 0 {
        acc
    } else {
        join_block(parts_md(acc, ps.drop_last(), o), part_block(ps.last(), o))
    }
}

/// The blocks `acc`, then the parts of content `c`.
pub open spec fn content_md(acc: Seq<char>, c: Content, o: Options) -> Seq<char> {
    parts_md(acc, c.parts(), o)
}

/// Whether messages of role `r` are included.
pub open spec fn shown(r: Role, o: Options) -> bool {
    match r {
        Role::ToolUse => o.tool_use,
        Role::ToolResult => o.tool_results,
        _ => true,
    }
}

/// The heading title of a role.
pub open spec fn title_of(r: Role) -> Seq<char> {
    match r {
        Role::User => "User"@,
        Role::Agent => "Assistant"@,
        Role::ToolUse => "Assistant"@,
        Role::ToolResult => "Tool"@,
        Role::System => "System"@,
    }
}

/// The `role` attribute of a role.
pub open spec fn attr_of(r: Role) -> Seq<char> {
    match r {
        Role::User => "user"@,
        Role::Agent => "assistant"@,
        Role::ToolUse => "assistant"@,
        Role::ToolResult => "tool"@,
        Role::System => "system"@,
    }
}

/// The blocks `acc`, then message `m`: a heading after its effective role,
/// then its content; nothing where its role is not included.
pub open spec fn message_md(acc: Seq<char>, m: Message, o: Options) -> Seq<char> {
    let r = role_of(m.role, m.content);
    if shown(r, o) {
        content_md(join_block(acc, heading_block(o, title_of(r), attr_of(r))), m.content, o)
    } else {
        acc
    }
}

/// The blocks `acc`, then the messages `ms`, in order.
pub open spec fn messages_md(acc: Seq<char>, ms: Seq<Message>, o: Options) -> Seq<char>
    decreases ms.len(),
{
    if ms.len() == 0 {
        acc
    } else {
        message_md(messages_md(acc, ms.drop_last(), o), ms.last(), o)
    }
}

/// The system content under a heading, where asked for and present.
pub open spec fn system_md(system: Option<Content>, o: Options) -> Seq<char> {
    if o.system && system is Some {
        content_md(heading_block(o, "System"@, "system"@), system->0, o)
    } else {
        Seq::empty()
    }
}

/// A prompt: its system content where asked for, then its messages.
pub open spec fn prompt_md(system: Option<Content>, ms: Seq<Message>, o: Options) -> Seq<char> {
    messages_md(system_md(system, o), ms, o)
}

/// A Markdown string, rendered from a buffer. It is immutable.
pub struct Markdown {
    text: String,
}

impl Markdown {
    /// The text.
    pub closed spec fn text_spec(&self) -> Seq<char> {
        self.text@
    }

    /// Markdown holding `text`.
    pub(crate) fn from_text(text: String) -> (r: Markdown)
        ensures
            r.text_spec() == text@,
    {
        Markdown { text }
    }

    /// The text, borrowed.
    pub fn as_str(&self) -> (r: &str)
        ensures
            r@ == self.text_spec(),
    {
        self.text.as_str()
    }

    /// The text, owned.
    pub fn into_string(self) -> (r: String)
        ensures
            r@ == self.text_spec(),
    {
        self.text
    }
}

impl AsRef<str> for Markdown {
    fn as_ref(&self) -> &str {
        self.text.as_str()
    }
}

impl std::borrow::Borrow<str> for Markdown {
    fn borrow(&self) -> &str {
        self.text.as_str()
    }
}

impl From<Markdown> for String {
    fn from(value: Markdown) -> (r: String) {
        value.text
    }
}

impl vstd::std_specs::convert::FromSpecImpl<Markdown> for String {
    open spec fn obeys_from_spec() -> bool {
        true
    }

    closed spec fn from_spec(v: Markdown) -> String {
        v.text
    }
}

} // verus!
