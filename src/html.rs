use vstd::prelude::*;
use vstd::string::*;

use pulldown_cmark::CodeBlockKind::Fenced;
use pulldown_cmark::{Event as MdEvent, Tag, TagEnd};

verus! {

/// An event of the Markdown parser.
#[verifier::external_type_specification]
#[verifier::external_body]
pub struct ExMdEvent<'a>(pulldown_cmark::Event<'a>);

/// The parser flag that reads `{key=value}` attributes after a heading: the
/// bit of `pulldown_cmark::Options::ENABLE_HEADING_ATTRIBUTES`.
pub const HEADING_ATTRIBUTES: u32 = 64;

/// The parser flags for HTML: those of the options, and heading attributes
/// where the options ask for them.
pub open spec fn html_flags(o: crate::markdown::Options) -> u32 {
    if o.attrs {
        o.inner | HEADING_ATTRIBUTES
    } else {
        o.inner
    }
}

/// The character `c`, escaped for text content of an XML or HTML element.
pub open spec fn escape_char(c: char) -> Seq<char> {
    if c == '<' {
        "&lt;"@
    } else if c == '>' {
        "&gt;"@
    } else if c == '&' {
        "&amp;"@
    } else {
        seq![c]
    }
}

/// `s` with `<`, `>` and `&` replaced by their entities.
pub open spec fn pcdata_escaped(s: Seq<char>) -> Seq<char>
    decreases s.len(),
{
    if s.len() == 0 {
        Seq::empty()
    } else {
        pcdata_escaped(s.drop_last()) + escape_char(s.last())
    }
}

/// A Markdown event, as far as the escaping pass tells events apart: the
/// events that carry text, the bounds of raw HTML blocks, and any other
/// event.
pub enum HtmlEvent<'a> {
    Text(String),
    Code(String),
    InlineMath(String),
    DisplayMath(String),
    Html(String),
    InlineHtml(String),
    FootnoteReference(String),
    StartHtmlBlock,
    EndHtmlBlock,
    Other(pulldown_cmark::Event<'a>),
}

/// A Markdown event after the escaping pass: no raw HTML block is left,
/// code blocks stand in their place.
pub enum EscapedEvent<'a> {
    Text(String),
    Code(String),
    InlineMath(String),
    DisplayMath(String),
    Html(String),
    InlineHtml(String),
    FootnoteReference(String),
    /// The start of a fenced code block, with its language.
    StartFencedCode(String),
    EndCodeBlock,
    Other(pulldown_cmark::Event<'a>),
}

/// Event `r` is event `e` after the escaping pass: text of any kind is
/// escaped; a raw HTML block becomes a code block fenced as `html`; every
/// other event stays.
pub open spec fn escaped_event(e: HtmlEvent, r: EscapedEvent) -> bool {
    match e {
        HtmlEvent::Text(s) => r matches EscapedEvent::Text(t) && t@ == pcdata_escaped(s@),
        HtmlEvent::Code(s) => r matches EscapedEvent::Code(t) && t@ == pcdata_escaped(s@),
        HtmlEvent::InlineMath(s) => r matches EscapedEvent::InlineMath(t) && t@ == pcdata_escaped(
            s@,
        ),
        HtmlEvent::DisplayMath(s) => r matches EscapedEvent::DisplayMath(t) && t@
            == pcdata_escaped(s@),
        HtmlEvent::Html(s) => r matches EscapedEvent::Html(t) && t@ == pcdata_escaped(s@),
        HtmlEvent::InlineHtml(s) => r matches EscapedEvent::InlineHtml(t) && t@ == pcdata_escaped(
            s@,
        ),
        HtmlEvent::FootnoteReference(s) => r matches EscapedEvent::FootnoteReference(t) && t@
            == pcdata_escaped(s@),
        HtmlEvent::StartHtmlBlock => r matches EscapedEvent::StartFencedCode(l) && l@ == "html"@,
        HtmlEvent::EndHtmlBlock => r is EndCodeBlock,
        HtmlEvent::Other(m) => r == EscapedEvent::Other(m),
    }
}

/// Relies on `xml::escape::escape_str_pcdata`: `<`, `>` and `&` become
/// `&lt;`, `&gt;` and `&amp;`; every other character stays.
#[verifier::external_body]
fn escape_pcdata(s: &str) -> (r: String)
    ensures
        r@ == pcdata_escaped(s@),
{
    xml::escape::escape_str_pcdata(s).into_owned()
}

/// The escaping pass on one event, so that nothing in a buffer's text
/// reaches the HTML as markup.
pub fn escape_event<'a>(e: HtmlEvent<'a>) -> (r: EscapedEvent<'a>)
    ensures
        escaped_event(e, r),
{
    match e {
        HtmlEvent::Text(s) => EscapedEvent::Text(escape_pcdata(s.as_str())),
        HtmlEvent::Code(s) => EscapedEvent::Code(escape_pcdata(s.as_str())),
        HtmlEvent::InlineMath(s) => EscapedEvent::InlineMath(escape_pcdata(s.as_str())),
        HtmlEvent::DisplayMath(s) => EscapedEvent::DisplayMath(escape_pcdata(s.as_str())),
        HtmlEvent::Html(s) => EscapedEvent::Html(escape_pcdata(s.as_str())),
        HtmlEvent::InlineHtml(s) => EscapedEvent::InlineHtml(escape_pcdata(s.as_str())),
        HtmlEvent::FootnoteReference(s) => EscapedEvent::FootnoteReference(
            escape_pcdata(s.as_str()),
        ),
        HtmlEvent::StartHtmlBlock => EscapedEvent::StartFencedCode(String::from_str("html")),
        HtmlEvent::EndHtmlBlock => EscapedEvent::EndCodeBlock,
        HtmlEvent::Other(m) => EscapedEvent::Other(m),
    }
}

/// The events the Markdown parser reads from `markdown` with `flags`.
pub uninterp spec fn md_parse(markdown: Seq<char>, flags: u32) -> Seq<MdEvent<'static>>;

/// The counterpart of a parser event among the events the pass tells apart.
pub uninterp spec fn html_event_of(e: MdEvent<'static>) -> HtmlEvent<'static>;

/// The parser event of an escaped event.
pub uninterp spec fn md_event_of(e: EscapedEvent<'static>) -> MdEvent<'static>;

/// The HTML that `pulldown_cmark::html::push_html` writes for `events`.
pub uninterp spec fn html_of_md(events: Seq<MdEvent<'static>>) -> Seq<char>;

/// Relies on `pulldown_cmark::Parser::new_ext` (unknown flag bits are
/// dropped) and `Event::into_static`: the events of `markdown`, in order.
#[verifier::external_body]
fn parse_markdown(markdown: &str, flags: u32) -> (r: Vec<MdEvent<'static>>)
    ensures
        r@ == md_parse(markdown@, flags),
{
    let options = pulldown_cmark::Options::from_bits_truncate(flags);
    pulldown_cmark::Parser::new_ext(markdown, options).map(|e| e.into_static()).collect()
}

/// Relies on the variants of `pulldown_cmark::Event`: each one the pass
/// reads becomes its counterpart, its text moved; any other stays whole.
#[verifier::external_body]
fn from_md_event(e: MdEvent<'static>) -> (r: HtmlEvent<'static>)
    ensures
        r == html_event_of(e),
{
    match e {
        MdEvent::Text(s) => HtmlEvent::Text(s.into_string()),
        MdEvent::Code(s) => HtmlEvent::Code(s.into_string()),
        MdEvent::InlineMath(s) => HtmlEvent::InlineMath(s.into_string()),
        MdEvent::DisplayMath(s) => HtmlEvent::DisplayMath(s.into_string()),
        MdEvent::Html(s) => HtmlEvent::Html(s.into_string()),
        MdEvent::InlineHtml(s) => HtmlEvent::InlineHtml(s.into_string()),
        MdEvent::FootnoteReference(s) => HtmlEvent::FootnoteReference(s.into_string()),
        MdEvent::Start(Tag::HtmlBlock) => HtmlEvent::StartHtmlBlock,
        MdEvent::End(TagEnd::HtmlBlock) => HtmlEvent::EndHtmlBlock,
        other => HtmlEvent::Other(other),
    }
}

/// Relies on the variants of `pulldown_cmark::Event`: each event becomes
/// its counterpart, its text moved.
#[verifier::external_body]
fn to_md_event(e: EscapedEvent<'static>) -> (r: MdEvent<'static>)
    ensures
        r == md_event_of(e),
{
    match e {
        EscapedEvent::Text(s) => MdEvent::Text(s.into()),
        EscapedEvent::Code(s) => MdEvent::Code(s.into()),
        EscapedEvent::InlineMath(s) => MdEvent::InlineMath(s.into()),
        EscapedEvent::DisplayMath(s) => MdEvent::DisplayMath(s.into()),
        EscapedEvent::Html(s) => MdEvent::Html(s.into()),
        EscapedEvent::InlineHtml(s) => MdEvent::InlineHtml(s.into()),
        EscapedEvent::FootnoteReference(s) => MdEvent::FootnoteReference(s.into()),
        EscapedEvent::StartFencedCode(l) => MdEvent::Start(Tag::CodeBlock(Fenced(l.into()))),
        EscapedEvent::EndCodeBlock => MdEvent::End(TagEnd::CodeBlock),
        EscapedEvent::Other(e) => e,
    }
}

/// Relies on `pulldown_cmark::html::push_html`, which appends the HTML of
/// the events to the string; writing to a `String` cannot fail.
#[verifier::external_body]
fn push_html(out: &mut String, events: Vec<MdEvent<'static>>)
    ensures
        final(out)@ == old(out)@ + html_of_md(events@),
{
    pulldown_cmark::html::push_html(out, events.into_iter())
}

/// `es` are the events `hs`, one for one, after the escaping pass.
pub open spec fn escaped_events(hs: Seq<HtmlEvent<'static>>, es: Seq<EscapedEvent<'static>>) -> bool {
    &&& hs.len() == es.len()
    &&& forall|i: int| 0 <= i < hs.len() ==> #[trigger] escaped_event(hs[i], es[i])
}

/// The parser events `events`, as the pass tells them apart.
pub open spec fn html_events_of(events: Seq<MdEvent<'static>>) -> Seq<HtmlEvent<'static>> {
    events.map_values(|e: MdEvent<'static>| html_event_of(e))
}

/// The HTML written for escaped events.
pub open spec fn html_of_escaped(es: Seq<EscapedEvent<'static>>) -> Seq<char> {
    html_of_md(es.map_values(|e: EscapedEvent<'static>| md_event_of(e)))
}

/// `text` is the HTML of the parser events `events`, each through the
/// escaping pass.
pub open spec fn escaped_html(events: Seq<MdEvent<'static>>, text: Seq<char>) -> bool {
    exists|es: Seq<EscapedEvent<'static>>|
        #[trigger] escaped_events(html_events_of(events), es) && text == html_of_escaped(es)
}

/// `text` is the HTML of `markdown` parsed with `flags`, each event through
/// the escaping pass.
pub open spec fn html_of(markdown: Seq<char>, flags: u32, text: Seq<char>) -> bool {
    escaped_html(md_parse(markdown, flags), text)
}

/// The parser events, as the pass tells them apart, in order.
fn from_md_events(events: Vec<MdEvent<'static>>) -> (r: Vec<HtmlEvent<'static>>)
    ensures
        r@ == html_events_of(events@),
{
    let ghost old_events = events@;
    let mut rest = events;
    let mut r: Vec<HtmlEvent<'static>> = Vec::new();
    while rest.len() > 0
        invariant
            r@.len() + rest@.len() == old_events.len(),
            rest@ == old_events.subrange(r@.len() as int, old_events.len() as int),
            forall|j: int| 0 <= j < r@.len() ==> #[trigger] r@[j] == html_event_of(old_events[j]),
        decreases rest@.len(),
    {
        let e = rest.remove(0);
        r.push(from_md_event(e));
    }
    proof {
        assert(r@ =~= html_events_of(old_events));
    }
    r
}

/// The escaping pass on every event, in order.
pub fn escape_events(events: Vec<HtmlEvent<'static>>) -> (r: Vec<EscapedEvent<'static>>)
    ensures
        escaped_events(events@, r@),
{
    let ghost old_events = events@;
    let mut rest = events;
    let mut r: Vec<EscapedEvent<'static>> = Vec::new();
    while rest.len() > 0
        invariant
            r@.len() + rest@.len() == old_events.len(),
            rest@ == old_events.subrange(r@.len() as int, old_events.len() as int),
            forall|j: int| 0 <= j < r@.len() ==> #[trigger] escaped_event(old_events[j], r@[j]),
        decreases rest@.len(),
    {
        let k = r.len();
        let e = rest.remove(0);
        proof {
            assert(e == old_events[k as int]);
        }
        r.push(escape_event(e));
    }
    r
}

/// The parser events of escaped events, in order.
fn to_md_events(events: Vec<EscapedEvent<'static>>) -> (r: Vec<MdEvent<'static>>)
    ensures
        r@ == events@.map_values(|e: EscapedEvent<'static>| md_event_of(e)),
{
    let ghost old_events = events@;
    let mut rest = events;
    let mut r: Vec<MdEvent<'static>> = Vec::new();
    while rest.len() > 0
        invariant
            r@.len() + rest@.len() == old_events.len(),
            rest@ == old_events.subrange(r@.len() as int, old_events.len() as int),
            forall|j: int| 0 <= j < r@.len() ==> #[trigger] r@[j] == md_event_of(old_events[j]),
        decreases rest@.len(),
    {
        let e = rest.remove(0);
        r.push(to_md_event(e));
    }
    proof {
        assert(r@ =~= old_events.map_values(|e: EscapedEvent<'static>| md_event_of(e)));
    }
    r
}

/// The HTML of `markdown` parsed with `flags`, each event through the
/// escaping pass.
pub(crate) fn markdown_to_html(markdown: &str, flags: u32) -> (r: String)
    ensures
        html_of(markdown@, flags, r@),
{
    let events = parse_markdown(markdown, flags);
    let mut r = String::new();
    append_escaped(&mut r, events);
    proof {
        assert(r@.subrange(0, r@.len() as int) =~= r@);
    }
    r
}

/// Append to `out` the HTML of the parser events, each through the escaping
/// pass.
fn append_escaped(out: &mut String, events: Vec<MdEvent<'static>>)
    ensures
        escaped_html(events@, final(out)@.subrange(old(out)@.len() as int, final(out)@.len() as int)),
        final(out)@.subrange(0, old(out)@.len() as int) == old(out)@,
{
    let ghost start = out@;
    let ghost md = events@;
    let hs = from_md_events(events);
    let es = escape_events(hs);
    let ghost ges = es@;
    let mds = to_md_events(es);
    push_html(out, mds);
    proof {
        assert(out@.subrange(start.len() as int, out@.len() as int) =~= html_of_escaped(ges));
        assert(out@.subrange(0, start.len() as int) =~= start);
        assert(escaped_events(html_events_of(md), ges));
    }
}

/// An HTML string, rendered from a buffer. It is immutable.
pub struct Html {
    inner: String,
}

impl Html {
    /// The text.
    pub closed spec fn text_spec(&self) -> Seq<char> {
        self.inner@
    }

    /// Html holding `inner`.
    pub(crate) fn from_text(inner: String) -> (r: Html)
        ensures
            r.text_spec() == inner@,
    {
        Html { inner }
    }

    /// The HTML of a stream of Markdown events, each through the escaping
    /// pass.
    pub fn from_events(events: Vec<MdEvent<'static>>) -> (r: Html)
        ensures
            escaped_html(events@, r.text_spec()),
    {
        let mut inner = String::new();
        append_escaped(&mut inner, events);
        proof {
            assert(inner@.subrange(0, inner@.len() as int) =~= inner@);
        }
        Html { inner }
    }

    /// Append the HTML of a stream of Markdown events, each through the
    /// escaping pass. What was there stays in front.
    pub fn extend(&mut self, events: Vec<MdEvent<'static>>)
        ensures
            final(self).text_spec().subrange(0, old(self).text_spec().len() as int) == old(
                self,
            ).text_spec(),
            escaped_html(
                events@,
                final(self).text_spec().subrange(
                    old(self).text_spec().len() as int,
                    final(self).text_spec().len() as int,
                ),
            ),
    {
        append_escaped(&mut self.inner, events);
    }

    /// The text, borrowed.
    pub fn as_str(&self) -> (r: &str)
        ensures
            r@ == self.text_spec(),
    {
        self.inner.as_str()
    }

    /// The text, owned.
    pub fn into_string(self) -> (r: String)
        ensures
            r@ == self.text_spec(),
    {
        self.inner
    }
}

/// Escaped text holds no `<` and no `>`: markup in the text of an event
/// reaches the HTML as entities, never as a tag.
pub proof fn lemma_escaped_holds_no_tag(s: Seq<char>)
    ensures
        forall|i: int|
            0 <= i < pcdata_escaped(s).len() ==> #[trigger] pcdata_escaped(s)[i] != '<'
                && pcdata_escaped(s)[i] != '>',
    decreases s.len(),
{
    reveal_strlit("&lt;");
    reveal_strlit("&gt;");
    reveal_strlit("&amp;");
    if s.len() > 0 {
        lemma_escaped_holds_no_tag(s.drop_last());
        let a = pcdata_escaped(s.drop_last());
        let b = escape_char(s.last());
        assert forall|i: int| 0 <= i < (a + b).len() implies #[trigger] (a + b)[i] != '<' && (a
            + b)[i] != '>' by {
            if i < a.len() {
                assert((a + b)[i] == a[i]);
            } else {
                assert((a + b)[i] == b[i - a.len()]);
            }
        }
    }
}

impl AsRef<str> for Html {
    fn as_ref(&self) -> &str {
        self.inner.as_str()
    }
}

impl std::borrow::Borrow<str> for Html {
    fn borrow(&self) -> &str {
        self.inner.as_str()
    }
}

impl From<Html> for String {
    fn from(value: Html) -> (r: String) {
        value.inner
    }
}

impl vstd::std_specs::convert::FromSpecImpl<Html> for String {
    open spec fn obeys_from_spec() -> bool {
        true
    }

    closed spec fn from_spec(v: Html) -> String {
        v.inner
    }
}

} // verus!
