//! The data shapes exchanged with the remote completion endpoint: message
//! roles, messages, the request body, and the decoded completion reply.

use vstd::prelude::*;

verus! {

/// Role tag carried by every message of a conversation.
#[derive(Clone, Copy, Debug, PartialEq, Eq, Structural)]
pub enum Role {
    System,
    User,
    Assistant,
}

/// The wire spelling of a role, as the endpoint's JSON uses it.
pub open spec fn role_str(r: Role) -> Seq<char> {
    match r {
        Role::System => "system"@,
        Role::User => "user"@,
        Role::Assistant => "assistant"@,
    }
}

impl Role {
    /// The wire spelling of this role.
    pub fn as_str(&self) -> (r: &'static str)
        ensures
            r@ == role_str(*self),
    {
        match self {
            Role::System => "system",
            Role::User => "user",
            Role::Assistant => "assistant",
        }
    }
}

/// One conversational message: a role and its text content.
#[derive(Debug)]
pub struct Message {
    pub role: Role,
    pub content: String,
}

/// Mathematical image of a [`Message`].
pub struct MessageView {
    pub role: Role,
    pub content: Seq<char>,
}

impl View for Message {
    type V = MessageView;

    open spec fn view(&self) -> MessageView {
        MessageView { role: self.role, content: self.content@ }
    }
}

/// A user message carrying `content`.
pub open spec fn user_msg(content: Seq<char>) -> MessageView {
    MessageView { role: Role::User, content: content }
}

/// An assistant message carrying `content`.
pub open spec fn assistant_msg(content: Seq<char>) -> MessageView {
    MessageView { role: Role::Assistant, content: content }
}

/// A system message carrying `content`.
pub open spec fn system_msg(content: Seq<char>) -> MessageView {
    MessageView { role: Role::System, content: content }
}

/// The request body sent to the endpoint on every turn: the model name, the
/// streaming flag, and the whole ordered transcript.
#[derive(Debug)]
pub struct Chatwise {
    pub model: String,
    pub stream: bool,
    pub messages: Vec<Message>,
}

/// Mathematical image of a [`Chatwise`].
pub struct ChatwiseView {
    pub model: Seq<char>,
    pub stream: bool,
    pub messages: Seq<MessageView>,
}

/// The views of a sequence of messages, in order.
pub open spec fn messages_view(msgs: Seq<Message>) -> Seq<MessageView> {
    msgs.map_values(|m: Message| m@)
}

impl View for Chatwise {
    type V = ChatwiseView;

    open spec fn view(&self) -> ChatwiseView {
        ChatwiseView {
            model: self.model@,
            stream: self.stream,
            messages: messages_view(self.messages@),
        }
    }
}

impl Chatwise {
    /// A fresh request body for `model`, with streaming off and no messages.
    pub fn new(model: String) -> (r: Chatwise)
        ensures
            r@.model == model@,
            r@.stream == false,
            r@.messages == Seq::<MessageView>::empty(),
    {
        let r = Chatwise { model, stream: false, messages: Vec::new() };
        proof {
            assert(messages_view(r.messages@) =~= Seq::<MessageView>::empty());
        }
        r
    }

    /// Appends `msg` as the last element of the transcript. Nothing is checked
    /// here: ordering is the caller's duty, and any sequence is representable.
    pub fn push(&mut self, msg: Message)
        ensures
            final(self)@.messages == old(self)@.messages.push(msg@),
            final(self)@.model == old(self)@.model,
            final(self)@.stream == old(self)@.stream,
    {
        let ghost before = self.messages@;
        self.messages.push(msg);
        proof {
            assert(messages_view(self.messages@) =~= messages_view(before).push(
                self.messages@.last()@,
            ));
        }
    }

    /// The full ordered transcript, for transmission.
    pub fn snapshot(&self) -> (r: &Vec<Message>)
        ensures
            messages_view(r@) == self@.messages,
    {
        &self.messages
    }
}

/// One candidate completion inside a decoded reply.
#[derive(Debug)]
pub struct Choice {
    pub index: i64,
    pub message: Message,
    pub finish_reason: String,
}

/// Mathematical image of a [`Choice`].
pub struct ChoiceView {
    pub index: i64,
    pub message: MessageView,
    pub finish_reason: Seq<char>,
}

impl View for Choice {
    type V = ChoiceView;

    open spec fn view(&self) -> ChoiceView {
        ChoiceView {
            index: self.index,
            message: self.message@,
            finish_reason: self.finish_reason@,
        }
    }
}

/// The decoded reply of the endpoint: bookkeeping fields and the ordered list
/// of candidate choices. A valid reply carries at least one choice; an empty
/// list is representable here and rejected where the first choice is taken.
#[derive(Debug)]
pub struct ResponseCompletion {
    pub id: String,
    pub object: String,
    pub created: i64,
    pub model: String,
    pub choices: Vec<Choice>,
}

/// Mathematical image of a [`ResponseCompletion`].
pub struct ResponseCompletionView {
    pub id: Seq<char>,
    pub object: Seq<char>,
    pub created: i64,
    pub model: Seq<char>,
    pub choices: Seq<ChoiceView>,
}

/// The views of a sequence of choices, in order.
pub open spec fn choices_view(cs: Seq<Choice>) -> Seq<ChoiceView> {
    cs.map_values(|c: Choice| c@)
}

impl View for ResponseCompletion {
    type V = ResponseCompletionView;

    open spec fn view(&self) -> ResponseCompletionView {
        ResponseCompletionView {
            id: self.id@,
            object: self.object@,
            created: self.created,
            model: self.model@,
            choices: choices_view(self.choices@),
        }
    }
}

} // verus!
