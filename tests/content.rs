use tstreamer::content::{Block, Content, Part};
use tstreamer::image::{Image, ImageFormat};
use tstreamer::message::{Any, Message, Role, WireRole};
use tstreamer::tool;

fn tool_result(is_error: bool) -> Part {
    Part::ToolResult {
        result: tool::Result {
            id: "t".to_string(),
            content: Content::text("out".to_string()),
            is_error,
        },
    }
}

fn tool_use() -> Part {
    Part::ToolUse {
        call: tool::Use { id: "t".to_string(), name: "f".to_string(), args: serde_json::Value::Null },
    }
}

#[test]
fn blocks_keep_order_and_variants() {
    let c = Content::from_parts(vec![
        Part::Text { text: "a".to_string() },
        Part::Image { image: Image { format: ImageFormat::Gif, base64: "R0".to_string() } },
        tool_use(),
        tool_result(false),
        tool_result(true),
    ]);
    let blocks = c.blocks();
    assert_eq!(blocks.len(), 5);
    assert!(matches!(blocks[0], Block::Text { text: "a" }));
    assert!(matches!(blocks[1], Block::Image { image } if image.base64 == "R0"));
    assert!(matches!(blocks[2], Block::ToolCall { call } if call.name == "f"));
    assert!(matches!(blocks[3], Block::ToolOk { ok } if !ok.is_error));
    assert!(matches!(blocks[4], Block::ToolError { error } if error.is_error));
    assert_eq!(c.blocks().len(), 5);
}

#[test]
fn single_part_is_one_text_block() {
    let c = Content::text("only".to_string());
    let blocks = c.blocks();
    assert_eq!(blocks.len(), 1);
    assert!(matches!(blocks[0], Block::Text { text: "only" }));
    assert_eq!(c.len(), 1);
}

#[test]
fn first_tool_result_makes_tool_result() {
    let m = Message::new(
        WireRole::User,
        Content::from_parts(vec![tool_result(false), Part::Text { text: "x".to_string() }]),
    );
    assert_eq!(m.role(), Role::ToolResult);
    assert_eq!(m.role(), m.role());
    let single = Message::new(WireRole::User, Content::text("x".to_string()));
    assert_eq!(single.role(), Role::User);
    let single = Message::new(WireRole::Assistant, Content::text("x".to_string()));
    assert_eq!(single.role(), Role::Agent);
}

#[test]
fn only_the_first_part_decides() {
    let m = Message::new(
        WireRole::User,
        Content::from_parts(vec![Part::Text { text: "x".to_string() }, tool_result(false)]),
    );
    assert_eq!(m.role(), Role::User);
    let m = Message::new(WireRole::Assistant, Content::from_parts(vec![tool_use()]));
    assert_eq!(m.role(), Role::ToolUse);
    let m = Message::new(WireRole::Assistant, Content::from_parts(vec![tool_result(false)]));
    assert_eq!(m.role(), Role::ToolResult);
    let m = Message::new(WireRole::Assistant, Content::text("x".to_string()));
    assert_eq!(m.role(), Role::Agent);
    let m = Message::new(WireRole::User, Content::from_parts(vec![tool_use()]));
    assert_eq!(m.role(), Role::User);
    let m = Message::new(WireRole::User, Content::from_parts(vec![]));
    assert_eq!(m.role(), Role::User);
}

#[test]
fn into_any_routes_by_role() {
    let m = Message::new(WireRole::User, Content::from_parts(vec![tool_result(true)]));
    assert!(matches!(m.into_any(), Any::ToolReturn(_)));
    let m = Message::new(WireRole::Assistant, Content::from_parts(vec![tool_use()]));
    assert!(matches!(m.into_any(), Any::ToolUse(_)));
    let m = Message::new(WireRole::Assistant, Content::text("a".to_string()));
    assert!(matches!(m.into_any(), Any::Agent(_)));
    let m = Message::new(WireRole::User, Content::text("u".to_string()));
    assert!(matches!(m.into_any(), Any::User(_)));
}

#[test]
fn tool_error_message_is_first_text() {
    let r = tool::Result {
        id: "t".to_string(),
        content: Content::from_parts(vec![Part::Text { text: "boom".to_string() }, tool_use()]),
        is_error: true,
    };
    assert_eq!(r.message(), "boom");
    let r = tool::Result { id: "t".to_string(), content: Content::from_parts(vec![tool_use()]), is_error: true };
    assert_eq!(r.message(), "");
    let r = tool::Result { id: "t".to_string(), content: Content::text("plain".to_string()), is_error: true };
    assert_eq!(r.message(), "plain");
    assert_eq!(r.id(), "t");
    assert!(r.is_error());
}

#[test]
fn image_html_tag() {
    let i = Image { format: ImageFormat::Jpeg, base64: "abc".to_string() };
    assert_eq!(i.html(), "<img src=\"data:image/jpeg;base64,abc\" />");
    let i = Image { format: ImageFormat::Webp, base64: "x".to_string() };
    assert_eq!(i.html(), "<img src=\"data:image/webp;base64,x\" />");
    assert_eq!(i.format(), ImageFormat::Webp);
    assert_eq!(i.base64(), "x");
}

#[test]
fn join_keeps_parts_in_order() {
    let a = Content::text("a".to_string());
    let b = Content::from_parts(vec![Part::Text { text: "b".to_string() }, tool_use()]);
    let j = a.join(b);
    assert_eq!(j.len(), 3);
    let parts = j.into_parts();
    assert!(matches!(&parts[0], Part::Text { text } if text == "a"));
    assert!(matches!(&parts[1], Part::Text { text } if text == "b"));
    assert!(matches!(&parts[2], Part::ToolUse { .. }));
}
