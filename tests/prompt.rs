use tstreamer::content::{Content, Part};
use tstreamer::element::PromptElement;
use tstreamer::message::{Message, Role, WireRole};
use tstreamer::prompt::{Prompt, TurnOrderError};

fn msg(role: WireRole, text: &str) -> Message {
    Message::new(role, Content::text(text.to_string()))
}

fn text_of(c: &Content) -> String {
    match c {
        Content::SinglePart(s) => s.clone(),
        Content::MultiPart(_) => String::new(),
    }
}

#[test]
fn test_prompt_push_pull() {
    let message = msg(WireRole::User, "Test Message");
    let mut source = PromptElement::new(Prompt::new());
    source.push_message(message).unwrap();
    let prompt = source.prompt();
    let message = prompt.messages().first().unwrap();
    assert!(matches!(message.role(), Role::User));
    assert_eq!(text_of(message.content()), "Test Message");
}

#[test]
fn add_message_appends_last() {
    let p = Prompt::new().add_message(msg(WireRole::User, "a")).unwrap();
    let before: Vec<String> = p.messages().iter().map(|m| text_of(m.content())).collect();
    let q = p.add_message(msg(WireRole::Assistant, "b")).unwrap();
    assert_eq!(q.messages().len(), before.len() + 1);
    assert_eq!(text_of(q.messages()[0].content()), "a");
    assert_eq!(text_of(q.messages()[1].content()), "b");
    assert_eq!(q.messages()[1].role, WireRole::Assistant);
}

#[test]
fn add_message_rejects_same_turn() {
    let p = Prompt::new().add_message(msg(WireRole::User, "a")).unwrap();
    match p.add_message(msg(WireRole::User, "again")) {
        Ok(_) => panic!("two user turns in a row were accepted"),
        Err(e) => assert_eq!(e, TurnOrderError { expected: WireRole::Assistant }),
    }
}

#[test]
fn extend_messages_in_order() {
    let p = Prompt::new()
        .extend_messages(vec![
            msg(WireRole::User, "1"),
            msg(WireRole::Assistant, "2"),
            msg(WireRole::User, "3"),
        ])
        .unwrap();
    let texts: Vec<String> = p.messages().iter().map(|m| text_of(m.content())).collect();
    assert_eq!(texts, vec!["1", "2", "3"]);
}

#[test]
fn extend_messages_rejects_broken_turns() {
    let p = Prompt::new().add_message(msg(WireRole::User, "1")).unwrap();
    assert!(p.extend_messages(vec![msg(WireRole::User, "2")]).is_err());
    let p = Prompt::new();
    assert!(p
        .extend_messages(vec![msg(WireRole::User, "1"), msg(WireRole::User, "2")])
        .is_err());
    let p = Prompt::new();
    let q = p.extend_messages(vec![]).unwrap();
    assert_eq!(q.messages().len(), 0);
}

#[test]
fn append_system_to_empty_is_set_system() {
    let a = Prompt::new().append_system(Content::text("sys".to_string()));
    let b = Prompt::new().set_system(Some(Content::text("sys".to_string())));
    assert_eq!(text_of(a.system().unwrap()), "sys");
    assert_eq!(text_of(b.system().unwrap()), "sys");
    assert!(matches!(a.system(), Some(Content::SinglePart(_))));
    assert!(matches!(b.system(), Some(Content::SinglePart(_))));
}

#[test]
fn append_system_to_single_part_gives_two_parts() {
    let p = Prompt::new()
        .set_system(Some(Content::text("first".to_string())))
        .append_system(Content::text("second".to_string()));
    match p.system() {
        Some(Content::MultiPart(parts)) => {
            assert_eq!(parts.len(), 2);
            assert!(matches!(&parts[0], Part::Text { text } if text == "first"));
            assert!(matches!(&parts[1], Part::Text { text } if text == "second"));
        }
        _ => panic!("system content is not multi-part"),
    }
}

#[test]
fn set_system_none_clears() {
    let p = Prompt::new()
        .set_system(Some(Content::text("x".to_string())))
        .set_system(None);
    assert!(p.system().is_none());
}

#[test]
fn prompt_element_rejects_without_change() {
    let mut e = PromptElement::new(Prompt::new());
    e.push_message(msg(WireRole::User, "a")).unwrap();
    assert!(e.push_message(msg(WireRole::User, "b")).is_err());
    assert_eq!(e.prompt().messages().len(), 1);
    e.replace(Prompt::new());
    assert_eq!(e.prompt().messages().len(), 0);
}

#[test]
fn tool_result_answers_exactly_one_use() {
    use_tool_helpers();
}

fn tool_use_message(id: &str) -> Message {
    Message::new(
        WireRole::Assistant,
        Content::from_parts(vec![Part::ToolUse {
            call: tstreamer::tool::Use {
                id: id.to_string(),
                name: "search".to_string(),
                args: serde_json::Value::Null,
            },
        }]),
    )
}

fn use_tool_helpers() {
    let p = Prompt::new()
        .add_message(msg(WireRole::User, "find it"))
        .unwrap()
        .add_message(tool_use_message("t1"))
        .unwrap();
    assert!(p.answers_one_use("t1"));
    assert!(!p.answers_one_use("t2"));
    let p = p
        .add_message(msg(WireRole::User, "again"))
        .unwrap()
        .add_message(tool_use_message("t1"))
        .unwrap();
    assert!(!p.answers_one_use("t1"));
}
