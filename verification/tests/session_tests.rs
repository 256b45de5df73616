use chatwise::api_structs::{Chatwise, Choice, Message, ResponseCompletion, Role};
use chatwise::decode::DecodeError;
use chatwise::session::{Session, SessionState};

fn reply_with(content: &str) -> ResponseCompletion {
    ResponseCompletion {
        id: "chatcmpl-1".to_string(),
        object: "chat.completion".to_string(),
        created: 1700000000,
        model: "gpt-3.5-turbo".to_string(),
        choices: vec![Choice {
            index: 0,
            message: Message { role: Role::Assistant, content: content.to_string() },
            finish_reason: "stop".to_string(),
        }],
    }
}

fn empty_reply() -> ResponseCompletion {
    ResponseCompletion {
        id: "chatcmpl-2".to_string(),
        object: "chat.completion".to_string(),
        created: 1700000000,
        model: "gpt-3.5-turbo".to_string(),
        choices: vec![],
    }
}

fn fresh(write_output: bool) -> Session {
    Session::new(
        "gpt-3.5-turbo".to_string(),
        "You are a helpful assistant.".to_string(),
        write_output,
    )
}

#[test]
fn transcript_alternates_and_grows() {
    let mut s = fresh(false);
    let inputs = ["one\n", "two\n", "three\n"];
    let replies = ["a", "b", "c"];
    for (i, r) in inputs.iter().zip(replies.iter()) {
        s.begin_turn(i.to_string());
        let out = s.complete_turn(reply_with(r)).unwrap();
        assert_eq!(out.render, *r);
    }
    assert_eq!(s.chat.messages.len(), 1 + 2 * inputs.len());
    assert_eq!(s.chat.messages[0].role, Role::System);
    for k in 0..inputs.len() {
        assert_eq!(s.chat.messages[1 + 2 * k].role, Role::User);
        assert_eq!(s.chat.messages[1 + 2 * k].content, inputs[k]);
        assert_eq!(s.chat.messages[2 + 2 * k].role, Role::Assistant);
        assert_eq!(s.chat.messages[2 + 2 * k].content, replies[k]);
    }
    assert_eq!(s.state, SessionState::AwaitingInput);
}

#[test]
fn request_body_contains_all_turns() {
    let mut s = fresh(false);
    let body1 = s.begin_turn("hi\n".to_string());
    assert_eq!(
        body1,
        "{\"model\":\"gpt-3.5-turbo\",\"stream\":false,\"messages\":[\
         {\"role\":\"system\",\"content\":\"You are a helpful assistant.\"},\
         {\"role\":\"user\",\"content\":\"hi\\n\"}]}"
    );
    s.complete_turn(reply_with("Hello!")).unwrap();
    let body2 = s.begin_turn("how are you\n".to_string());
    assert_eq!(
        body2,
        "{\"model\":\"gpt-3.5-turbo\",\"stream\":false,\"messages\":[\
         {\"role\":\"system\",\"content\":\"You are a helpful assistant.\"},\
         {\"role\":\"user\",\"content\":\"hi\\n\"},\
         {\"role\":\"assistant\",\"content\":\"Hello!\"},\
         {\"role\":\"user\",\"content\":\"how are you\\n\"}]}"
    );
}

#[test]
fn empty_choices_is_decode_error() {
    let mut s = fresh(true);
    s.begin_turn("hi\n".to_string());
    let before = s.chat.messages.len();
    let r = s.complete_turn(empty_reply());
    assert_eq!(r.unwrap_err(), DecodeError::EmptyChoices);
    assert_eq!(s.chat.messages.len(), before);
    assert_eq!(s.state, SessionState::Terminated);
}

#[test]
fn transcript_file_two_turns() {
    let mut s = fresh(true);
    let mut file = String::new();
    for (i, r) in [("hi\n", "Hello!"), ("how are you\n", "I'm well.")] {
        s.begin_turn(i.to_string());
        let out = s.complete_turn(reply_with(r)).unwrap();
        file.push_str(&out.record.unwrap());
    }
    assert_eq!(
        file,
        "***user>*** hi\n\n***chatwise>*** Hello!\n\n\
         ***user>*** how are you\n\n***chatwise>*** I'm well.\n\n"
    );
}

#[test]
fn transport_failure_second_turn() {
    let mut s = fresh(true);
    let mut file = String::new();
    s.begin_turn("hi\n".to_string());
    let out = s.complete_turn(reply_with("Hello!")).unwrap();
    file.push_str(&out.record.unwrap());
    s.begin_turn("how are you\n".to_string());
    s.fail_turn();
    assert_eq!(file, "***user>*** hi\n\n***chatwise>*** Hello!\n\n");
    assert_eq!(s.state, SessionState::Terminated);
}

#[test]
fn no_output_path_no_records() {
    let mut s = fresh(false);
    s.begin_turn("hi\n".to_string());
    let out = s.complete_turn(reply_with("Hello!")).unwrap();
    assert!(out.record.is_none());
    assert_eq!(out.render, "Hello!");
    assert_eq!(s.chat.messages.len(), 3);
    assert_eq!(s.chat.messages[2].content, "Hello!");
}

#[test]
fn end_of_input_terminates_cleanly() {
    let mut s = fresh(false);
    s.end_of_input();
    assert_eq!(s.state, SessionState::Terminated);
    assert_eq!(s.chat.messages.len(), 1);
}

#[test]
fn push_does_not_validate_order() {
    let mut chat = Chatwise::new("m".to_string());
    chat.push(Message { role: Role::Assistant, content: "first".to_string() });
    chat.push(Message { role: Role::Assistant, content: "second".to_string() });
    assert_eq!(chat.messages.len(), 2);
    assert_eq!(chat.messages[0].role, Role::Assistant);
    assert_eq!(chat.snapshot().len(), 2);
}
