use vstd::prelude::*;
use vstd::string::*;

use crate::content::{Content, Part};
use crate::html::{html_flags, html_of, markdown_to_html, Html, HEADING_ATTRIBUTES};
use crate::image::ImageFormat;
use crate::markdown::{
    content_md, default_options, hashes, heading_block, join_block, level_of, message_md,
    messages_md, part_block, parts_md, prompt_md, system_md, verbose_options, HeadingLevel,
    Markdown, Options,
};
use crate::message::{Message, Role, WireRole};
use crate::prompt::Prompt;

verus! {

/// Append block `b` after the blocks in `out`.
fn push_block(out: &mut String, b: &str)
    ensures
        final(out)@ == join_block(old(out)@, b@),
{
    if b.is_empty() {
    } else if out.as_str().is_empty() {
        out.append(b);
    } else {
        out.append("\n\n");
        out.append(b);
    }
}

/// The heading block.
fn heading(o: &Options, title: &str, attr: &str) -> (r: String)
    ensures
        r@ == heading_block(*o, title@, attr@),
{
    let n: u8 = match o.heading_level {
        Some(HeadingLevel::H1) => 1,
        Some(HeadingLevel::H2) => 2,
        Some(HeadingLevel::H3) => 3,
        Some(HeadingLevel::H4) => 4,
        Some(HeadingLevel::H5) => 5,
        Some(HeadingLevel::H6) => 6,
        None => 3,
    };
    let mut out = String::new();
    let mut i: u8 = 0;
    while i < n
        invariant
            i <= n,
            n == level_of(*o),
            out@ == hashes(i as nat),
        decreases n - i,
    {
        out.append("#");
        i = i + 1;
        proof {
            assert(hashes(i as nat) == hashes((i - 1) as nat) + "#"@);
        }
    }
    out.append(" ");
    out.append(title);
    if o.attrs {
        out.append(" {role=");
        out.append(attr);
        out.append("}");
    }
    proof {
        assert(out@ =~= heading_block(*o, title@, attr@));
    }
    out
}

/// The block of one part.
fn part(p: &Part, o: &Options) -> (r: String)
    ensures
        r@ == part_block(*p, *o),
{
    let mut out = String::new();
    match p {
        Part::Text { text } => {
            out.append(text.as_str());
        },
        Part::Image { image } => {
            out.append("![image](data:image/");
            let subtype: &str = match image.format {
                ImageFormat::Jpeg => "jpeg",
                ImageFormat::Png => "png",
                ImageFormat::Gif => "gif",
                ImageFormat::Webp => "webp",
            };
            out.append(subtype);
            out.append(";base64,");
            out.append(image.base64.as_str());
            out.append(")");
        },
        Part::ToolUse { call } => {
            if o.tool_use {
                out.append("```json\n{\"type\":\"tool_use\",\"id\":\"");
                out.append(call.id.as_str());
                out.append("\",\"name\":\"");
                out.append(call.name.as_str());
                out.append("\"}\n```");
            }
        },
        Part::ToolResult { result } => {
            if o.tool_results {
                out.append("```\n");
                out.append(result.message());
                out.append("\n```");
            }
        },
    }
    proof {
        reveal_strlit("");
        assert(out@ =~= part_block(*p, *o));
    }
    out
}

/// Append the parts of a content.
fn push_content(out: &mut String, c: &Content, o: &Options)
    ensures
        final(out)@ == content_md(old(out)@, *c, *o),
{
    let ghost start = out@;
    match c {
        Content::SinglePart(s) => {
            let ghost p = Part::Text { text: *s };
            push_block(out, s.as_str());
            proof {
                let ps = c.parts();
                assert(ps.drop_last() =~= Seq::<Part>::empty());
                assert(ps.last() == p);
                assert(parts_md(start, ps.drop_last(), *o) == start);
            }
        },
        Content::MultiPart(v) => {
            let mut i: usize = 0;
            while i < v.len()
                invariant
                    i <= v@.len(),
                    out@ == parts_md(start, v@.subrange(0, i as int), *o),
                decreases v@.len() - i,
            {
                let b = part(&v[i], o);
                push_block(out, b.as_str());
                proof {
                    let s = v@.subrange(0, i + 1);
                    assert(s.drop_last() =~= v@.subrange(0, i as int));
                    assert(s.last() == v@[i as int]);
                }
                i = i + 1;
            }
            proof {
                assert(v@.subrange(0, v@.len() as int) =~= v@);
            }
        },
    }
}

/// Append a message.
fn push_message(out: &mut String, m: &Message, o: &Options)
    ensures
        final(out)@ == message_md(old(out)@, *m, *o),
{
    let r = m.role();
    let show = match r {
        Role::ToolUse => o.tool_use,
        Role::ToolResult => o.tool_results,
        _ => true,
    };
    if show {
        let (title, attr): (&str, &str) = match r {
            Role::User => ("User", "user"),
            Role::Agent => ("Assistant", "assistant"),
            Role::ToolUse => ("Assistant", "assistant"),
            Role::ToolResult => ("Tool", "tool"),
            Role::System => ("System", "system"),
        };
        let h = heading(o, title, attr);
        push_block(out, h.as_str());
        push_content(out, m.content(), o);
    }
}

/// Append a prompt.
fn push_prompt(out: &mut String, p: &Prompt, o: &Options)
    requires
        old(out)@.len() == 0,
    ensures
        final(out)@ == prompt_md(p.system_spec(), p.messages_spec(), *o),
{
    if o.system {
        match p.system() {
            Some(c) => {
                let h = heading(o, "System", "system");
                out.append(h.as_str());
                push_content(out, c, o);
            },
            None => {},
        }
    }
    let ghost head = out@;
    proof {
        assert(head =~= system_md(p.system_spec(), *o));
    }
    let ms = p.messages();
    let mut i: usize = 0;
    while i < ms.len()
        invariant
            i <= ms@.len(),
            ms@ == p.messages_spec(),
            out@ == messages_md(head, ms@.subrange(0, i as int), *o),
        decreases ms@.len() - i,
    {
        push_message(out, &ms[i], o);
        proof {
            let s = ms@.subrange(0, i + 1);
            assert(s.drop_last() =~= ms@.subrange(0, i as int));
            assert(s.last() == ms@[i as int]);
        }
        i = i + 1;
    }
    proof {
        assert(ms@.subrange(0, ms@.len() as int) =~= ms@);
    }
}

/// A buffer that renders to Markdown and, through the Markdown parser and
/// the escaping pass of [`crate::html`], to HTML.
pub trait ToMarkdown {
    /// The Markdown of the buffer with options `o`.
    spec fn markdown_spec(&self, o: Options) -> Seq<char>;

    /// The Markdown text of the buffer.
    fn render_markdown(&self, o: &Options) -> (r: String)
        ensures
            r@ == self.markdown_spec(*o),
    ;

    /// The Markdown with the default options.
    fn markdown(&self) -> (r: Markdown)
        ensures
            r.text_spec() == self.markdown_spec(default_options()),
    {
        self.markdown_custom(Options::default())
    }

    /// The Markdown with options `o`.
    fn markdown_custom(&self, o: Options) -> (r: Markdown)
        ensures
            r.text_spec() == self.markdown_spec(o),
    {
        Markdown::from_text(self.render_markdown(&o))
    }

    /// The Markdown with the verbose options.
    fn markdown_verbose(&self) -> (r: Markdown)
        ensures
            r.text_spec() == self.markdown_spec(verbose_options()),
    {
        self.markdown_custom(Options::verbose())
    }

    /// The HTML with the default options.
    fn html(&self) -> (r: Html)
        ensures
            html_of(
                self.markdown_spec(default_options()),
                html_flags(default_options()),
                r.text_spec(),
            ),
    {
        self.html_custom(Options::default())
    }

    /// The HTML with options `o`.
    fn html_custom(&self, o: Options) -> (r: Html)
        ensures
            html_of(self.markdown_spec(o), html_flags(o), r.text_spec()),
    {
        let out = self.render_markdown(&o);
        let flags: u32 = if o.attrs {
            o.inner | HEADING_ATTRIBUTES
        } else {
            o.inner
        };
        Html::from_text(markdown_to_html(out.as_str(), flags))
    }

    /// The HTML with the verbose options.
    fn html_verbose(&self) -> (r: Html)
        ensures
            html_of(
                self.markdown_spec(verbose_options()),
                html_flags(verbose_options()),
                r.text_spec(),
            ),
    {
        self.html_custom(Options::verbose())
    }
}

impl ToMarkdown for Content {
    open spec fn markdown_spec(&self, o: Options) -> Seq<char> {
        content_md(Seq::empty(), *self, o)
    }

    fn render_markdown(&self, o: &Options) -> (r: String) {
        let mut out = String::new();
        push_content(&mut out, self, o);
        out
    }
}

impl ToMarkdown for Message {
    open spec fn markdown_spec(&self, o: Options) -> Seq<char> {
        message_md(Seq::empty(), *self, o)
    }

    fn render_markdown(&self, o: &Options) -> (r: String) {
        let mut out = String::new();
        push_message(&mut out, self, o);
        out
    }
}

impl ToMarkdown for Prompt {
    open spec fn markdown_spec(&self, o: Options) -> Seq<char> {
        prompt_md(self.system_spec(), self.messages_spec(), o)
    }

    fn render_markdown(&self, o: &Options) -> (r: String) {
        let mut out = String::new();
        push_prompt(&mut out, self, o);
        out
    }
}

/// A user message of a single, non-empty text part renders to Markdown
/// that holds the text as it is, after the heading and a blank line.
pub proof fn lemma_user_text_in_markdown(text: String, o: Options)
    requires
        text@.len() > 0,
    ensures
        message_md(
            Seq::empty(),
            Message { role: WireRole::User, content: Content::SinglePart(text) },
            o,
        ) == heading_block(o, "User"@, "user"@) + "\n\n"@ + text@,
{
    let c = Content::SinglePart(text);
    let ps = c.parts();
    let h = heading_block(o, "User"@, "user"@);
    assert(h.len() > 0) by {
        assert(h =~= hashes(level_of(o)) + (" "@ + "User"@ + (if o.attrs {
            " {role="@ + "user"@ + "}"@
        } else {
            Seq::<char>::empty()
        })));
        reveal_strlit(" ");
    }
    assert(join_block(Seq::empty(), h) == h);
    assert(ps.drop_last() =~= Seq::<Part>::empty());
    assert(parts_md(h, ps.drop_last(), o) == h);
    assert(ps.last() == (Part::Text { text }));
}

} // verus!
