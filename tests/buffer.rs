use tstreamer::any::{Owned, Tag};
use tstreamer::buffer::{BoxedError, Buffer, ErrorStaticString};
use tstreamer::content::Content;
use tstreamer::info::Info;
use tstreamer::message::{Message, WireRole};
use tstreamer::prompt::{Prompt, TurnOrderError};
use tstreamer::tool;

#[test]
fn err_side_converts_like_the_error() {
    let e = ErrorStaticString::new("went wrong");
    let direct = Box::new(e).into_owned();
    let wrapped: Result<Message, ErrorStaticString> = Err(e);
    assert_eq!(wrapped.name(), "Err(ErrorStaticString)");
    assert_eq!(wrapped.description(), "went wrong");
    assert_eq!(wrapped.as_borrowed().kind(), Tag::Error);
    let owned = Box::new(wrapped).into_owned();
    assert_eq!(owned.kind(), Tag::Error);
    assert_eq!(direct.kind(), Tag::Error);
    assert_eq!(owned.name(), direct.name());
    assert_eq!(owned.name(), "ErrorStaticString");
    assert_eq!(owned.description(), direct.description());
    assert_eq!(owned.description(), "went wrong");
}

#[test]
fn ok_side_delegates() {
    let m = Message::new(WireRole::User, Content::text("hi".to_string()));
    let ok: Result<Message, ErrorStaticString> = Ok(m);
    assert_eq!(ok.name(), "Ok(Message)");
    assert_eq!(ok.as_borrowed().kind(), Tag::Message);
    let owned = Box::new(ok).into_owned();
    assert_eq!(owned.kind(), Tag::Message);
    assert_eq!(owned.name(), "Message");
    assert_eq!(owned.description(), "Content with a role.");
    assert!(matches!(owned, Owned::Message(_)));
}

#[test]
fn borrowed_and_owned_tags_match() {
    let p = Prompt::new();
    assert_eq!(p.as_borrowed().kind(), Tag::Prompt);
    assert_eq!(Box::new(p).into_owned().kind(), Tag::Prompt);
    let c = Content::text("c".to_string());
    assert_eq!(c.as_borrowed().kind(), Tag::Content);
    assert_eq!(Box::new(c).into_owned().kind(), Tag::Content);
    let v = serde_json::Value::Bool(true);
    assert_eq!(v.as_borrowed().kind(), Tag::Schema);
    assert_eq!(Box::new(v).into_owned().kind(), Tag::Schema);
}

#[test]
fn tool_result_kind_follows_error_flag() {
    let ok = tool::Result { id: "1".to_string(), content: Content::text("x".to_string()), is_error: false };
    assert_eq!(ok.as_borrowed().kind(), Tag::ToolOk);
    assert_eq!(Box::new(ok).into_owned().kind(), Tag::ToolOk);
    let err = tool::Result { id: "1".to_string(), content: Content::text("x".to_string()), is_error: true };
    assert_eq!(err.as_borrowed().kind(), Tag::Error);
    let owned = Box::new(err).into_owned();
    assert_eq!(owned.kind(), Tag::Error);
    assert_eq!(owned.name(), "ToolResult");
}

#[test]
fn turn_order_error_is_an_error_buffer() {
    let e = TurnOrderError { expected: WireRole::User };
    assert_eq!(e.name(), "TurnOrderError");
    let boxed = BoxedError::from_error(&e);
    assert_eq!(boxed.name, "TurnOrderError");
    assert_eq!(boxed.description, e.description());
    assert_eq!(Box::new(e).into_owned().kind(), Tag::Error);
}

#[test]
fn tool_use_name_is_tool_name() {
    let u = tool::Use { id: "7".to_string(), name: "search".to_string(), args: serde_json::Value::Null };
    assert_eq!(u.name(), "search");
    assert_eq!(u.id(), "7");
    assert_eq!(u.as_borrowed().kind(), Tag::ToolCall);
    assert_eq!(*u.args(), serde_json::Value::Null);
}
