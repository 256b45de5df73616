use chatwise::api_structs::Role;
use chatwise::decode::{decode_response, role_from_wire, DecodeError};
use chatwise::session::Session;

const FULL: &str = "{\"id\":\"chatcmpl-1\",\"object\":\"chat.completion\",\
    \"created\":1700000000,\"model\":\"gpt-3.5-turbo\",\
    \"choices\":[{\"index\":0,\"message\":{\"role\":\"assistant\",\
    \"content\":\"Hello!\"},\"finish_reason\":\"stop\"}]}";

#[test]
fn decode_full_response() {
    let r = decode_response(FULL).unwrap();
    assert_eq!(r.id, "chatcmpl-1");
    assert_eq!(r.object, "chat.completion");
    assert_eq!(r.created, 1700000000);
    assert_eq!(r.model, "gpt-3.5-turbo");
    assert_eq!(r.choices.len(), 1);
    assert_eq!(r.choices[0].index, 0);
    assert_eq!(r.choices[0].message.role, Role::Assistant);
    assert_eq!(r.choices[0].message.content, "Hello!");
    assert_eq!(r.choices[0].finish_reason, "stop");
}

#[test]
fn decode_rejects_bad_json() {
    assert_eq!(decode_response("not json").unwrap_err(), DecodeError::Malformed);
    assert_eq!(decode_response("").unwrap_err(), DecodeError::Malformed);
}

#[test]
fn decode_rejects_missing_or_mistyped_fields() {
    // no choices member at all
    let r = decode_response("{\"id\":\"x\",\"object\":\"o\",\"created\":1,\"model\":\"m\"}");
    assert_eq!(r.unwrap_err(), DecodeError::Malformed);
    // created is a string, not an integer
    let r = decode_response(
        "{\"id\":\"x\",\"object\":\"o\",\"created\":\"1\",\"model\":\"m\",\"choices\":[]}",
    );
    assert_eq!(r.unwrap_err(), DecodeError::Malformed);
    // a choice without a message
    let r = decode_response(
        "{\"id\":\"x\",\"object\":\"o\",\"created\":1,\"model\":\"m\",\
         \"choices\":[{\"index\":0,\"finish_reason\":\"stop\"}]}",
    );
    assert_eq!(r.unwrap_err(), DecodeError::Malformed);
}

#[test]
fn decode_rejects_unknown_role() {
    let r = decode_response(
        "{\"id\":\"x\",\"object\":\"o\",\"created\":1,\"model\":\"m\",\
         \"choices\":[{\"index\":0,\"message\":{\"role\":\"robot\",\
         \"content\":\"hi\"},\"finish_reason\":\"stop\"}]}",
    );
    assert_eq!(r.unwrap_err(), DecodeError::Malformed);
}

#[test]
fn decode_unescapes_content() {
    let r = decode_response(
        "{\"id\":\"x\",\"object\":\"o\",\"created\":1,\"model\":\"m\",\
         \"choices\":[{\"index\":0,\"message\":{\"role\":\"assistant\",\
         \"content\":\"line\\none \\\"quoted\\\"\"},\"finish_reason\":\"stop\"}]}",
    );
    assert_eq!(r.unwrap().choices[0].message.content, "line\none \"quoted\"");
}

#[test]
fn empty_choices_decode_then_session_rejects() {
    let body = "{\"id\":\"x\",\"object\":\"o\",\"created\":1,\"model\":\"m\",\"choices\":[]}";
    let r = decode_response(body).unwrap();
    assert_eq!(r.choices.len(), 0);
    let mut s = Session::new("m".to_string(), "seed".to_string(), false);
    s.begin_turn("hi\n".to_string());
    assert_eq!(s.complete_turn(r).unwrap_err(), DecodeError::EmptyChoices);
}

#[test]
fn role_wire_spellings() {
    assert_eq!(role_from_wire("system").unwrap(), Role::System);
    assert_eq!(role_from_wire("user").unwrap(), Role::User);
    assert_eq!(role_from_wire("assistant").unwrap(), Role::Assistant);
    assert_eq!(role_from_wire("Assistant").unwrap_err(), DecodeError::Malformed);
    for role in [Role::System, Role::User, Role::Assistant] {
        assert_eq!(role_from_wire(role.as_str()).unwrap(), role);
    }
}

#[test]
fn decode_error_descriptions() {
    assert_eq!(DecodeError::Malformed.describe(), "response body is not a valid completion");
    assert_eq!(DecodeError::EmptyChoices.describe(), "completion reply carries no choices");
}
