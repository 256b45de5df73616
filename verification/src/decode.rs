//! Decoding the endpoint's reply body into a [`ResponseCompletion`]. The JSON
//! text is parsed by serde_json behind trusted declarations whose results are
//! named below; every shape check — field presence, field types, role
//! spellings — is verified code, and [`decode_response`] is proved to return
//! `Ok` of exactly the completion a body of the expected shape holds, and
//! `Malformed` on every other body.

use vstd::prelude::*;
use vstd::string::*;
use crate::api_structs::{
    Choice, ChoiceView, Message, MessageView, ResponseCompletion, ResponseCompletionView, Role,
    choices_view, role_str,
};
use crate::text::str_eq;

verus! {

/// Why a reply body could not be taken as a completion.
#[derive(Clone, Copy, Debug, PartialEq, Eq, Structural)]
pub enum DecodeError {
    /// The body is not JSON of the completion shape.
    Malformed,
    /// The reply decoded, but its list of choices is empty.
    EmptyChoices,
}

/// A one-line account of a decode error, for reporting at the process edge.
pub open spec fn decode_error_str(e: DecodeError) -> Seq<char> {
    match e {
        DecodeError::Malformed => "response body is not a valid completion"@,
        DecodeError::EmptyChoices => "completion reply carries no choices"@,
    }
}

impl DecodeError {
    /// The account given by [`decode_error_str`].
    pub fn describe(&self) -> (r: &'static str)
        ensures
            r@ == decode_error_str(*self),
    {
        match self {
            DecodeError::Malformed => "response body is not a valid completion",
            DecodeError::EmptyChoices => "completion reply carries no choices",
        }
    }
}

/// Declares serde_json::Value, the parsed JSON document the wrappers below
/// read; it stays opaque here, and everything known of one is what the named
/// results below say of it.
#[verifier::external_type_specification]
#[verifier::external_body]
pub struct ExJsonValue(serde_json::Value);

/// Declares serde_json::Error, the parser's error; it is never inspected, only
/// mapped to [`DecodeError::Malformed`].
#[verifier::external_type_specification]
#[verifier::external_body]
pub struct ExJsonError(serde_json::Error);

/// What serde_json::from_str returns for a body text: the parsed document, or
/// nothing when the text is not valid JSON. A function of the text alone.
pub uninterp spec fn json_doc(s: Seq<char>) -> Option<serde_json::Value>;

/// What serde_json::Value::get returns for a document and a key: the member of
/// a JSON object under that key, or nothing when the document is no object or
/// has no such member.
pub uninterp spec fn json_member(v: serde_json::Value, key: Seq<char>) -> Option<
    serde_json::Value,
>;

/// What serde_json::Value::as_str returns: the text of a JSON string, or
/// nothing on any other kind of value.
pub uninterp spec fn json_text(v: serde_json::Value) -> Option<Seq<char>>;

/// What serde_json::Value::as_array returns: the elements of a JSON array, in
/// order, or nothing on any other kind of value.
pub uninterp spec fn json_array(v: serde_json::Value) -> Option<Seq<serde_json::Value>>;

/// What serde_json::Value::as_i64 returns: the value of a JSON integer that
/// fits an `i64`, or nothing on any other kind of value.
pub uninterp spec fn json_int(v: serde_json::Value) -> Option<i64>;

/// Relies on serde_json::from_str::<Value>: parses one JSON document, `Err`
/// when the text is not valid JSON; the result depends on the text alone.
#[verifier::external_body]
fn json_parse(s: &str) -> (r: Result<serde_json::Value, serde_json::Error>)
    ensures
        r is Ok <==> json_doc(s@) is Some,
        r matches Ok(v) ==> json_doc(s@) == Some(v),
{
    serde_json::from_str(s)
}

/// Relies on serde_json::Value::get: the member of a JSON object under `key`,
/// `None` when the value is no object or has no such member.
#[verifier::external_body]
fn value_get<'a>(v: &'a serde_json::Value, key: &str) -> (r: Option<&'a serde_json::Value>)
    ensures
        r is Some <==> json_member(*v, key@) is Some,
        r matches Some(m) ==> json_member(*v, key@) == Some(*m),
{
    v.get(key)
}

/// Relies on serde_json::Value::as_str: the text of a JSON string, `None` on
/// any other kind of value.
#[verifier::external_body]
fn value_as_str<'a>(v: &'a serde_json::Value) -> (r: Option<&'a str>)
    ensures
        r is Some <==> json_text(*v) is Some,
        r matches Some(s) ==> json_text(*v) == Some(s@),
{
    v.as_str()
}

/// Relies on serde_json::Value::as_array: the elements of a JSON array, `None`
/// on any other kind of value.
#[verifier::external_body]
fn value_as_array<'a>(v: &'a serde_json::Value) -> (r: Option<&'a Vec<serde_json::Value>>)
    ensures
        r is Some <==> json_array(*v) is Some,
        r matches Some(a) ==> json_array(*v) == Some(a@),
{
    v.as_array()
}

/// Relies on serde_json::Value::as_i64: the value of a JSON integer that fits
/// an `i64`, `None` on any other kind of value.
#[verifier::external_body]
fn value_as_i64(v: &serde_json::Value) -> (r: Option<i64>)
    ensures
        r == json_int(*v),
{
    v.as_i64()
}

/// The role a wire spelling decodes to; anything but the three known
/// spellings is rejected.
pub open spec fn role_from_wire_spec(s: Seq<char>) -> Result<Role, DecodeError> {
    if s == "system"@ {
        Result::<Role, DecodeError>::Ok(Role::System)
    } else if s == "user"@ {
        Result::<Role, DecodeError>::Ok(Role::User)
    } else if s == "assistant"@ {
        Result::<Role, DecodeError>::Ok(Role::Assistant)
    } else {
        Result::<Role, DecodeError>::Err(DecodeError::Malformed)
    }
}

/// Law: the three wire spellings are pairwise distinct, so decoding the
/// spelling of a role gives back exactly that role.
pub proof fn lemma_role_wire_round_trip(r: Role)
    ensures
        role_from_wire_spec(role_str(r)) == Result::<Role, DecodeError>::Ok(r),
{
    reveal_strlit("system");
    reveal_strlit("user");
    reveal_strlit("assistant");
    assert("system"@.len() == 6);
    assert("user"@.len() == 4);
    assert("assistant"@.len() == 9);
}

/// The role named by its wire spelling; unknown spellings are rejected.
pub fn role_from_wire(s: &str) -> (r: Result<Role, DecodeError>)
    ensures
        r == role_from_wire_spec(s@),
{
    if str_eq(s, "system") {
        Ok(Role::System)
    } else if str_eq(s, "user") {
        Ok(Role::User)
    } else if str_eq(s, "assistant") {
        Ok(Role::Assistant)
    } else {
        Err(DecodeError::Malformed)
    }
}

/// The text of the string member of `v` under `key`, if `v` has one.
pub open spec fn string_member(v: serde_json::Value, key: Seq<char>) -> Option<Seq<char>> {
    match json_member(v, key) {
        Some(m) => json_text(m),
        None => None,
    }
}

/// The value of the integer member of `v` under `key`, if `v` has one.
pub open spec fn int_member(v: serde_json::Value, key: Seq<char>) -> Option<i64> {
    match json_member(v, key) {
        Some(m) => json_int(m),
        None => None,
    }
}

/// The message a JSON document holds: a known role spelling under `role` and a
/// string under `content`, or nothing where either is missing or mistyped.
pub open spec fn message_of_json(v: serde_json::Value) -> Option<MessageView> {
    match string_member(v, "role"@) {
        Some(role_text) => match role_from_wire_spec(role_text) {
            Ok(role) => match string_member(v, "content"@) {
                Some(content) => Some(MessageView { role: role, content: content }),
                None => None,
            },
            Err(_) => None,
        },
        None => None,
    }
}

/// The candidate choice a JSON document holds: an integer `index`, a message
/// under `message`, and a string `finish_reason`.
pub open spec fn choice_of_json(v: serde_json::Value) -> Option<ChoiceView> {
    match int_member(v, "index"@) {
        Some(index) => match json_member(v, "message"@) {
            Some(mv) => match message_of_json(mv) {
                Some(message) => match string_member(v, "finish_reason"@) {
                    Some(finish_reason) => Some(
                        ChoiceView { index: index, message: message, finish_reason: finish_reason },
                    ),
                    None => None,
                },
                None => None,
            },
            None => None,
        },
        None => None,
    }
}

/// The choices a JSON array holds, in order; nothing as soon as any element is
/// no well-shaped choice.
pub open spec fn choices_of_json(vs: Seq<serde_json::Value>) -> Option<Seq<ChoiceView>>
    decreases vs.len(),
{
    if vs.len() == 0 {
        Some(Seq::<ChoiceView>::empty())
    } else {
        match choices_of_json(vs.drop_last()) {
            Some(pre) => match choice_of_json(vs.last()) {
                Some(c) => Some(pre.push(c)),
                None => None,
            },
            None => None,
        }
    }
}

/// The completion a JSON document holds: string members `id`, `object` and
/// `model`, an integer `created`, and an array of well-shaped choices under
/// `choices` — or nothing where any of them is missing or mistyped.
pub open spec fn completion_of_json(v: serde_json::Value) -> Option<ResponseCompletionView> {
    match string_member(v, "id"@) {
        Some(id) => match string_member(v, "object"@) {
            Some(object) => match int_member(v, "created"@) {
                Some(created) => match string_member(v, "model"@) {
                    Some(model) => match json_member(v, "choices"@) {
                        Some(cv) => match json_array(cv) {
                            Some(vs) => match choices_of_json(vs) {
                                Some(choices) => Some(
                                    ResponseCompletionView {
                                        id: id,
                                        object: object,
                                        created: created,
                                        model: model,
                                        choices: choices,
                                    },
                                ),
                                None => None,
                            },
                            None => None,
                        },
                        None => None,
                    },
                    None => None,
                },
                None => None,
            },
            None => None,
        },
        None => None,
    }
}

/// The completion a body text decodes to: the completion its JSON document
/// holds, or nothing where the text is no JSON or the document is not of the
/// completion shape.
pub open spec fn decode_response_spec(s: Seq<char>) -> Option<ResponseCompletionView> {
    match json_doc(s) {
        Some(doc) => completion_of_json(doc),
        None => None,
    }
}

proof fn lemma_choices_of_json_none(vs: Seq<serde_json::Value>, i: int)
    requires
        0 <= i < vs.len(),
        choice_of_json(vs[i]) is None,
    ensures
        choices_of_json(vs) is None,
    decreases vs.len(),
{
    if i < vs.len() - 1 {
        assert(vs.drop_last()[i] == vs[i]);
        lemma_choices_of_json_none(vs.drop_last(), i);
    }
}

/// The string member of `v` under `key`, owned.
fn string_field(v: &serde_json::Value, key: &str) -> (r: Result<String, DecodeError>)
    ensures
        r is Ok <==> string_member(*v, key@) is Some,
        r matches Ok(s) ==> string_member(*v, key@) == Some(s@),
        r matches Err(e) ==> e == DecodeError::Malformed,
{
    match value_get(v, key) {
        Some(f) => match value_as_str(f) {
            Some(s) => Ok(s.to_owned()),
            None => Err(DecodeError::Malformed),
        },
        None => Err(DecodeError::Malformed),
    }
}

/// The integer member of `v` under `key`.
fn i64_field(v: &serde_json::Value, key: &str) -> (r: Result<i64, DecodeError>)
    ensures
        r is Ok <==> int_member(*v, key@) is Some,
        r matches Ok(n) ==> int_member(*v, key@) == Some(n),
        r matches Err(e) ==> e == DecodeError::Malformed,
{
    match value_get(v, key) {
        Some(f) => match value_as_i64(f) {
            Some(n) => Ok(n),
            None => Err(DecodeError::Malformed),
        },
        None => Err(DecodeError::Malformed),
    }
}

/// One message object: a role under its wire spelling, and a content string.
fn decode_message(v: &serde_json::Value) -> (r: Result<Message, DecodeError>)
    ensures
        r is Ok <==> message_of_json(*v) is Some,
        r matches Ok(m) ==> message_of_json(*v) == Some(m@),
        r matches Err(e) ==> e == DecodeError::Malformed,
{
    let role_text = string_field(v, "role")?;
    let role = match role_from_wire(role_text.as_str()) {
        Ok(role) => role,
        Err(e) => {
            return Err(e);
        },
    };
    let content = string_field(v, "content")?;
    Ok(Message { role, content })
}

/// One candidate choice: its index, its message, and its finish reason.
fn decode_choice(v: &serde_json::Value) -> (r: Result<Choice, DecodeError>)
    ensures
        r is Ok <==> choice_of_json(*v) is Some,
        r matches Ok(c) ==> choice_of_json(*v) == Some(c@),
        r matches Err(e) ==> e == DecodeError::Malformed,
{
    let index = i64_field(v, "index")?;
    let message = match value_get(v, "message") {
        Some(m) => decode_message(m)?,
        None => {
            return Err(DecodeError::Malformed);
        },
    };
    let finish_reason = string_field(v, "finish_reason")?;
    Ok(Choice { index, message, finish_reason })
}

/// Decodes a reply body into a [`ResponseCompletion`]: `Ok` of exactly the
/// completion the body holds when it is JSON of the completion shape, and
/// `Malformed` on every other body — text that is not JSON, a missing or
/// mistyped field, or an unknown role spelling. An empty list of choices is
/// decoded as it stands and rejected only where the first choice is taken.
#[verifier::loop_isolation(false)]
pub fn decode_response(body: &str) -> (r: Result<ResponseCompletion, DecodeError>)
    ensures
        r is Ok <==> decode_response_spec(body@) is Some,
        r matches Ok(c) ==> decode_response_spec(body@) == Some(c@),
        r matches Err(e) ==> e == DecodeError::Malformed,
{
    let v = match json_parse(body) {
        Ok(v) => v,
        Err(_) => {
            return Err(DecodeError::Malformed);
        },
    };
    let id = string_field(&v, "id")?;
    let object = string_field(&v, "object")?;
    let created = i64_field(&v, "created")?;
    let model = string_field(&v, "model")?;
    let arr = match value_get(&v, "choices") {
        Some(c) => match value_as_array(c) {
            Some(a) => a,
            None => {
                return Err(DecodeError::Malformed);
            },
        },
        None => {
            return Err(DecodeError::Malformed);
        },
    };
    let mut choices: Vec<Choice> = Vec::new();
    let mut i: usize = 0;
    proof {
        assert(arr@.subrange(0, 0) =~= Seq::<serde_json::Value>::empty());
        assert(choices_view(choices@) =~= Seq::<ChoiceView>::empty());
    }
    while i < arr.len()
        invariant
            i <= arr.len(),
            choices_of_json(arr@.subrange(0, i as int)) == Some(choices_view(choices@)),
        decreases arr.len() - i,
    {
        let choice = match decode_choice(&arr[i]) {
            Ok(c) => c,
            Err(e) => {
                proof {
                    lemma_choices_of_json_none(arr@, i as int);
                }
                return Err(e);
            },
        };
        let ghost pre_choices = choices@;
        choices.push(choice);
        proof {
            let pre = arr@.subrange(0, i as int);
            let ext = arr@.subrange(0, i + 1 as int);
            assert(ext.drop_last() =~= pre);
            assert(ext.last() == arr@[i as int]);
            assert(choices_view(choices@) =~= choices_view(pre_choices).push(choice@));
        }
        i = i + 1;
    }
    proof {
        assert(arr@.subrange(0, arr.len() as int) =~= arr@);
    }
    Ok(ResponseCompletion { id, object, created, model, choices })
}

} // verus!
