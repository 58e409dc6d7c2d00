use std::borrow::Borrow;

use tstreamer::content::Content;
use pulldown_cmark::{Event, HeadingLevel::H3, Tag, TagEnd};
use tstreamer::html::{escape_event, EscapedEvent, Html, HtmlEvent};
use tstreamer::markdown::Options;
use tstreamer::message::{Message, WireRole};
use tstreamer::prompt::Prompt;
use tstreamer::render::ToMarkdown;

fn user(text: &str) -> Message {
    Message::new(WireRole::User, Content::text(text.to_string()))
}

fn assistant(text: &str) -> Message {
    Message::new(WireRole::Assistant, Content::text(text.to_string()))
}

#[test]
fn test_message_html() {
    let message = user("Hello, **world**!");

    assert_eq!(
        message.html().as_ref(),
        "<h3>User</h3>\n<p>Hello, <strong>world</strong>!</p>\n",
    );

    let opts = Options {
        attrs: true,
        ..Default::default()
    };

    assert_eq!(
        message.html_custom(opts).as_ref(),
        "<h3 role=\"user\">User</h3>\n<p>Hello, <strong>world</strong>!</p>\n",
    );
}

#[test]
fn test_to_html() {
    let message = user("Hello, **world**!");

    assert_eq!(
        message.html().as_ref(),
        "<h3>User</h3>\n<p>Hello, <strong>world</strong>!</p>\n",
    );

    assert_eq!(
        message.html_verbose().as_ref(),
        "<h3 role=\"user\">User</h3>\n<p>Hello, <strong>world</strong>!</p>\n",
    );

    assert_eq!(
        message
            .html_custom(Options {
                attrs: true,
                ..Default::default()
            })
            .as_ref(),
        "<h3 role=\"user\">User</h3>\n<p>Hello, <strong>world</strong>!</p>\n",
    );
}

#[test]
fn test_borrow() {
    let message = user("Hello, **world**!");

    let html: Html = message.html();
    let borrowed: &str = html.borrow();
    assert_eq!(borrowed, html.as_ref());
}

#[test]
fn test_into_string() {
    let message = user("Hello, **world**!");

    let html: Html = message.html();
    let string: String = html.into();
    assert_eq!(
        string,
        "<h3>User</h3>\n<p>Hello, <strong>world</strong>!</p>\n"
    );
}

#[test]
fn test_html_from_events() {
    let events = vec![
        pulldown_cmark::Event::Start(pulldown_cmark::Tag::Paragraph),
        pulldown_cmark::Event::Text("Hello, world!".into()),
        pulldown_cmark::Event::End(pulldown_cmark::TagEnd::Paragraph),
    ];

    let html = Html::from_events(events);
    assert_eq!(html.as_ref(), "<p>Hello, world!</p>\n");
}

#[test]
fn test_html_extend() {
    let mut html = Html::from_events(vec![]);

    let events = vec![
        pulldown_cmark::Event::Start(pulldown_cmark::Tag::Paragraph),
        pulldown_cmark::Event::Text("Hello, world!".into()),
        pulldown_cmark::Event::End(pulldown_cmark::TagEnd::Paragraph),
    ];

    html.extend(events);
    assert_eq!(html.as_ref(), "<p>Hello, world!</p>\n");
}

#[test]
fn test_escaping() {
    let message = assistant("bla bla<script>alert('XSS')</script>bla bla");

    assert_eq!(
        message.html().as_ref(),
        "<h3>Assistant</h3>\n<p>bla bla&lt;script&gt;alert('XSS')&lt;/script&gt;bla bla</p>\n",
    );

    let message = assistant("<script>alert('XSS')</script>");

    assert_eq!(
        message.html_verbose().as_ref(),
        "<h3 role=\"assistant\">Assistant</h3>\n<pre><code class=\"language-html\">&lt;script&gt;alert('XSS')&lt;/script&gt;</code></pre>\n",
    );

    let bad_attrs = vec![
        Event::Start(Tag::Heading {
            level: H3,
            id: None,
            classes: vec![],
            attrs: vec![(
                r#"<p>badkey</p>"#.into(),
                Some(r#""sneaky"><script>badvalue</script>"#.into()),
            )],
        }),
        Event::Text("Hello, world!".into()),
        Event::End(TagEnd::Heading(H3)),
    ];

    let html = Html::from_events(bad_attrs);
    assert_eq!(
        html.as_ref(),
        r#"<h3 &lt;p&gt;badkey&lt;/p&gt;="&quot;sneaky&quot;&gt;&lt;script&gt;badvalue&lt;/script&gt;">Hello, world!</h3>
"#
    );
}

#[test]
fn escape_pass_on_single_events() {
    match escape_event(HtmlEvent::Text("a<b>&c".to_string())) {
        EscapedEvent::Text(t) => assert_eq!(t, "a&lt;b&gt;&amp;c"),
        _ => panic!("text became another event"),
    }
    match escape_event(HtmlEvent::InlineHtml("<i>".to_string())) {
        EscapedEvent::InlineHtml(t) => assert_eq!(t, "&lt;i&gt;"),
        _ => panic!("inline html became another event"),
    }
    assert!(matches!(escape_event(HtmlEvent::StartHtmlBlock), EscapedEvent::StartFencedCode(l) if l == "html"));
    assert!(matches!(escape_event(HtmlEvent::EndHtmlBlock), EscapedEvent::EndCodeBlock));
    assert!(matches!(
        escape_event(HtmlEvent::Other(Event::SoftBreak)),
        EscapedEvent::Other(Event::SoftBreak)
    ));
}

#[test]
fn html_escapes_inline_script() {
    let message = assistant("bla bla<script>alert('XSS')</script>bla bla");

    assert_eq!(
        message.html().as_ref(),
        "<h3>Assistant</h3>\n<p>bla bla&lt;script&gt;alert('XSS')&lt;/script&gt;bla bla</p>\n",
    );
}

#[test]
fn html_escapes_whole_script_text() {
    let message = user("<script>alert('XSS')</script>");
    let html = message.html_verbose();
    let s: &str = html.as_ref();
    assert!(s.contains("&lt;script&gt;alert('XSS')&lt;/script&gt;"));
    assert!(!s.contains("<script>"));
    let html = message.html();
    assert!(!html.as_ref().contains("<script>"));
}

#[test]
fn prompt_html_verbose_shows_tools() {
    let call = tstreamer::content::Part::ToolUse {
        call: tstreamer::tool::Use {
            id: "id".to_string(),
            name: "python".to_string(),
            args: serde_json::Value::Null,
        },
    };
    let result = tstreamer::content::Part::ToolResult {
        result: tstreamer::tool::Result {
            id: "id".to_string(),
            content: Content::text("Hello, world!".to_string()),
            is_error: false,
        },
    };
    let prompt = Prompt::new()
        .add_message(user("Run a hello world python program."))
        .unwrap()
        .add_message(Message::new(WireRole::Assistant, Content::from_parts(vec![call])))
        .unwrap()
        .add_message(Message::new(WireRole::User, Content::from_parts(vec![result])))
        .unwrap()
        .add_message(assistant("It is done!"))
        .unwrap();
    assert_eq!(
        prompt.html().as_ref(),
        "<h3>User</h3>\n<p>Run a hello world python program.</p>\n<h3>Assistant</h3>\n<p>It is done!</p>\n",
    );
    assert_eq!(
        prompt.html_verbose().as_ref(),
        "<h3 role=\"user\">User</h3>\n<p>Run a hello world python program.</p>\n<h3 role=\"assistant\">Assistant</h3>\n<pre><code class=\"language-json\">{\"type\":\"tool_use\",\"id\":\"id\",\"name\":\"python\"}\n</code></pre>\n<h3 role=\"tool\">Tool</h3>\n<pre><code>Hello, world!\n</code></pre>\n<h3 role=\"assistant\">Assistant</h3>\n<p>It is done!</p>\n",
    );
}

#[test]
fn prompt_html_hides_tools_and_system_by_default() {
    let prompt = Prompt::new()
        .set_system(Some(Content::text("Do stuff the user says.".to_string())))
        .add_message(user("Run a hello world python program."))
        .unwrap()
        .add_message(assistant("It is done!"))
        .unwrap();

    assert_eq!(
        prompt.html().as_ref(),
        "<h3>User</h3>\n<p>Run a hello world python program.</p>\n<h3>Assistant</h3>\n<p>It is done!</p>\n",
    );

    let opts = Options {
        attrs: true,
        ..Default::default()
    };
    assert_eq!(
        prompt.html_custom(opts).as_ref(),
        "<h3 role=\"user\">User</h3>\n<p>Run a hello world python program.</p>\n<h3 role=\"assistant\">Assistant</h3>\n<p>It is done!</p>\n",
    );

    assert_eq!(
        prompt.html_verbose().as_ref(),
        "<h3 role=\"system\">System</h3>\n<p>Do stuff the user says.</p>\n<h3 role=\"user\">User</h3>\n<p>Run a hello world python program.</p>\n<h3 role=\"assistant\">Assistant</h3>\n<p>It is done!</p>\n",
    );
}
