use chatwise::api_structs::{Chatwise, Message, Role};
use chatwise::encode::{bearer_header_value, encode_body};

fn chat_with(messages: Vec<Message>) -> Chatwise {
    let mut chat = Chatwise::new("gpt-3.5-turbo".to_string());
    for m in messages {
        chat.push(m);
    }
    chat
}

#[test]
fn body_exact_for_fresh_transcript() {
    let chat = chat_with(vec![Message {
        role: Role::System,
        content: "You are a helpful assistant.".to_string(),
    }]);
    assert_eq!(
        encode_body(&chat),
        "{\"model\":\"gpt-3.5-turbo\",\"stream\":false,\"messages\":[\
         {\"role\":\"system\",\"content\":\"You are a helpful assistant.\"}]}"
    );
}

#[test]
fn body_with_no_messages() {
    let chat = chat_with(vec![]);
    assert_eq!(
        encode_body(&chat),
        "{\"model\":\"gpt-3.5-turbo\",\"stream\":false,\"messages\":[]}"
    );
}

#[test]
fn escaping_matches_json_string_rules() {
    let chat = chat_with(vec![Message {
        role: Role::User,
        content: "a\"b\\c\nd\te\r\u{8}\u{c}\u{1}\u{1f}é".to_string(),
    }]);
    assert_eq!(
        encode_body(&chat),
        "{\"model\":\"gpt-3.5-turbo\",\"stream\":false,\"messages\":[\
         {\"role\":\"user\",\"content\":\"a\\\"b\\\\c\\nd\\te\\r\\b\\f\\u0001\\u001fé\"}]}"
    );
}

#[test]
fn encoded_body_is_valid_json() {
    let chat = chat_with(vec![
        Message { role: Role::System, content: "seed".to_string() },
        Message { role: Role::User, content: "quote \" and control \u{2}\n".to_string() },
    ]);
    let body = encode_body(&chat);
    let v: serde_json::Value = serde_json::from_str(&body).unwrap();
    assert_eq!(v["model"], "gpt-3.5-turbo");
    assert_eq!(v["stream"], false);
    let msgs = v["messages"].as_array().unwrap();
    assert_eq!(msgs.len(), 2);
    assert_eq!(msgs[1]["role"], "user");
    assert_eq!(msgs[1]["content"], "quote \" and control \u{2}\n");
}

#[test]
fn bearer_header() {
    assert_eq!(bearer_header_value("sk-123"), "Bearer sk-123");
    assert_eq!(bearer_header_value(""), "Bearer ");
}
