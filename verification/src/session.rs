//! The conversation session: an append-only transcript driven as a state
//! machine. Each turn appends one user message, sends the whole transcript,
//! and — only on a successful reply — appends one assistant message and hands
//! back what to render and what to record.

use vstd::prelude::*;
use vstd::string::*;
use crate::api_structs::{
    Chatwise, Message, MessageView, ResponseCompletion, Role, assistant_msg, system_msg, user_msg,
};
use crate::decode::DecodeError;
use crate::encode::{body_spec, encode_body};
use crate::record::{format_record, record_block};

verus! {

/// Where the session loop stands between calls.
#[derive(Clone, Copy, Debug, PartialEq, Eq, Structural)]
pub enum SessionState {
    /// Ready to take the next line of user input.
    AwaitingInput,
    /// A user turn is appended and its request is out; the reply is awaited.
    SendingRequest,
    /// End of input, a transport failure, or an undecodable reply: the
    /// session is over and takes no further turn.
    Terminated,
}

/// What one successful turn hands back to the caller: the assistant text to
/// render, and, when a transcript file is configured, the blocks to append.
#[derive(Debug)]
pub struct TurnOutput {
    pub render: String,
    pub record: Option<String>,
}

/// The role a well-formed transcript carries at position `i`: the system seed
/// first, then user and assistant turns strictly alternating.
pub open spec fn expected_role(i: int) -> Role {
    if i == 0 {
        Role::System
    } else if i % 2 == 1 {
        Role::User
    } else {
        Role::Assistant
    }
}

/// A non-empty transcript whose roles follow [`expected_role`].
pub open spec fn alternates(msgs: Seq<MessageView>) -> bool {
    &&& msgs.len() >= 1
    &&& forall|i: int| 0 <= i < msgs.len() ==> msgs[i].role == expected_role(i)
}

/// One conversation session: the transcript (which is also the request body),
/// whether a transcript file is configured, and the loop state.
pub struct Session {
    pub chat: Chatwise,
    pub write_output: bool,
    pub state: SessionState,
}

impl Session {
    /// The session invariant: the transcript alternates correctly, streaming
    /// stays off, and the transcript's parity matches the loop state — odd
    /// while input is awaited, even (user turn last) while a request is out.
    pub open spec fn wf(self) -> bool {
        &&& alternates(self.chat@.messages)
        &&& self.chat@.stream == false
        &&& (self.state is AwaitingInput ==> self.chat@.messages.len() % 2 == 1)
        &&& (self.state is SendingRequest ==> self.chat@.messages.len() % 2 == 0)
    }

    /// A fresh session: the transcript holds exactly the system seed turn and
    /// the loop awaits its first input.
    pub fn new(model: String, system_prompt: String, write_output: bool) -> (r: Session)
        ensures
            r.wf(),
            r.state == SessionState::AwaitingInput,
            r.write_output == write_output,
            r.chat@.model == model@,
            r.chat@.stream == false,
            r.chat@.messages == seq![system_msg(system_prompt@)],
    {
        let mut chat = Chatwise::new(model);
        chat.push(Message { role: Role::System, content: system_prompt });
        proof {
            assert(chat@.messages =~= seq![system_msg(system_prompt@)]);
        }
        Session { chat, write_output, state: SessionState::AwaitingInput }
    }

    /// Takes one line of user input: appends it as a user turn and returns the
    /// request body for the whole transcript so extended — the system turn,
    /// every earlier turn, and the new user turn, nothing omitted.
    pub fn begin_turn(&mut self, line: String) -> (body: String)
        requires
            old(self).wf(),
            old(self).state == SessionState::AwaitingInput,
        ensures
            final(self).wf(),
            final(self).state == SessionState::SendingRequest,
            final(self).chat@.messages == old(self).chat@.messages.push(user_msg(line@)),
            final(self).chat@.model == old(self).chat@.model,
            final(self).chat@.stream == old(self).chat@.stream,
            final(self).write_output == old(self).write_output,
            body@ == body_spec(final(self).chat@),
    {
        self.chat.push(Message { role: Role::User, content: line });
        self.state = SessionState::SendingRequest;
        proof {
            let msgs = self.chat@.messages;
            let n = old(self).chat@.messages.len() as int;
            assert(msgs[n].role == expected_role(n));
            assert(forall|i: int| 0 <= i < n ==> msgs[i] == old(self).chat@.messages[i]);
        }
        encode_body(&self.chat)
    }

    /// Takes the decoded reply for the outstanding request. A reply without
    /// choices is an explicit decode error: the session terminates and the
    /// transcript is not extended. Otherwise the first choice's content is
    /// appended as an assistant turn and handed back for rendering, together
    /// with the transcript-file blocks exactly when a file is configured.
    pub fn complete_turn(&mut self, resp: ResponseCompletion) -> (r: Result<
        TurnOutput,
        DecodeError,
    >)
        requires
            old(self).wf(),
            old(self).state == SessionState::SendingRequest,
        ensures
            final(self).wf(),
            final(self).chat@.model == old(self).chat@.model,
            final(self).chat@.stream == old(self).chat@.stream,
            final(self).write_output == old(self).write_output,
            resp@.choices.len() == 0 ==> {
                &&& r matches Err(e) && e == DecodeError::EmptyChoices
                &&& final(self).state == SessionState::Terminated
                &&& final(self).chat@.messages == old(self).chat@.messages
            },
            resp@.choices.len() > 0 ==> {
                &&& final(self).state == SessionState::AwaitingInput
                &&& final(self).chat@.messages == old(self).chat@.messages.push(
                    assistant_msg(resp@.choices[0].message.content),
                )
                &&& r matches Ok(out) && out.render@ == resp@.choices[0].message.content && (
                old(self).write_output ==> (out.record matches Some(rec) && rec@ == record_block(
                    old(self).chat@.messages.last().content,
                    resp@.choices[0].message.content,
                ))) && (!old(self).write_output ==> out.record is None)
            },
    {
        if resp.choices.len() == 0 {
            self.state = SessionState::Terminated;
            return Err(DecodeError::EmptyChoices);
        }
        let content = resp.choices[0].message.content.clone();
        let record = if self.write_output {
            let last = self.chat.messages.len() - 1;
            Some(format_record(self.chat.messages[last].content.as_str(), content.as_str()))
        } else {
            None
        };
        let render = content.clone();
        self.chat.push(Message { role: Role::Assistant, content });
        self.state = SessionState::AwaitingInput;
        proof {
            let msgs = self.chat@.messages;
            let n = old(self).chat@.messages.len() as int;
            assert(msgs[n].role == expected_role(n));
            assert(forall|i: int| 0 <= i < n ==> msgs[i] == old(self).chat@.messages[i]);
        }
        Ok(TurnOutput { render, record })
    }

    /// A transport failure or an undecodable reply body while a request is
    /// out: the turn is abandoned, nothing is appended and nothing recorded,
    /// and the session terminates.
    pub fn fail_turn(&mut self)
        requires
            old(self).wf(),
            old(self).state == SessionState::SendingRequest,
        ensures
            final(self).wf(),
            final(self).state == SessionState::Terminated,
            final(self).chat@ == old(self).chat@,
            final(self).write_output == old(self).write_output,
    {
        self.state = SessionState::Terminated;
    }

    /// End of the input stream: the session terminates cleanly, unchanged.
    pub fn end_of_input(&mut self)
        requires
            old(self).wf(),
            old(self).state == SessionState::AwaitingInput,
        ensures
            final(self).wf(),
            final(self).state == SessionState::Terminated,
            final(self).chat@ == old(self).chat@,
            final(self).write_output == old(self).write_output,
    {
        self.state = SessionState::Terminated;
    }
}

/// The transcript reached after `inputs.len()` successful turns from a fresh
/// session seeded with `prompt`: the system turn, then each input as a user
/// turn followed at once by its reply as an assistant turn.
pub open spec fn transcript_after(
    prompt: Seq<char>,
    inputs: Seq<Seq<char>>,
    replies: Seq<Seq<char>>,
) -> Seq<MessageView>
    decreases inputs.len(),
{
    if inputs.len() == 0 {
        seq![system_msg(prompt)]
    } else {
        transcript_after(prompt, inputs.drop_last(), replies.drop_last()).push(
            user_msg(inputs.last()),
        ).push(assistant_msg(replies.last()))
    }
}

/// Law: one successful turn extends the transcript by exactly two messages,
/// the user turn and then its assistant turn — as the contracts of
/// [`Session::begin_turn`] and [`Session::complete_turn`] append them.
pub proof fn lemma_transcript_step(
    prompt: Seq<char>,
    inputs: Seq<Seq<char>>,
    replies: Seq<Seq<char>>,
    input: Seq<char>,
    reply: Seq<char>,
)
    ensures
        transcript_after(prompt, inputs.push(input), replies.push(reply)) == transcript_after(
            prompt,
            inputs,
            replies,
        ).push(user_msg(input)).push(assistant_msg(reply)),
{
    assert(inputs.push(input).drop_last() =~= inputs);
    assert(replies.push(reply).drop_last() =~= replies);
}

/// Law: after any number of successful turns the transcript holds exactly
/// `1 + 2 * N` messages, alternates system, user, assistant, user, assistant,
/// …, and carries every input and every reply at its turn's place — nothing
/// skipped, nothing reordered.
pub proof fn lemma_transcript_shape(
    prompt: Seq<char>,
    inputs: Seq<Seq<char>>,
    replies: Seq<Seq<char>>,
)
    requires
        inputs.len() == replies.len(),
    ensures
        transcript_after(prompt, inputs, replies).len() == 1 + 2 * inputs.len(),
        alternates(transcript_after(prompt, inputs, replies)),
        transcript_after(prompt, inputs, replies)[0] == system_msg(prompt),
        forall|k: int|
            0 <= k < inputs.len() ==> transcript_after(prompt, inputs, replies)[1 + 2 * k]
                == user_msg(inputs[k]) && transcript_after(prompt, inputs, replies)[2 + 2 * k]
                == assistant_msg(replies[k]),
    decreases inputs.len(),
{
    if inputs.len() == 0 {
        assert(transcript_after(prompt, inputs, replies)[0].role == expected_role(0));
    } else {
        lemma_transcript_shape(prompt, inputs.drop_last(), replies.drop_last());
        let prev = transcript_after(prompt, inputs.drop_last(), replies.drop_last());
        let cur = transcript_after(prompt, inputs, replies);
        let n = prev.len() as int;
        assert(cur[n].role == expected_role(n));
        assert(cur[n + 1].role == expected_role(n + 1));
        assert(forall|i: int| 0 <= i < n ==> cur[i] == prev[i]);
        assert forall|k: int| 0 <= k < inputs.len() - 1 implies cur[1 + 2 * k] == user_msg(
            inputs[k],
        ) && cur[2 + 2 * k] == assistant_msg(replies[k]) by {
            assert(1 + 2 * k < n);
            assert(2 + 2 * k < n);
            assert(prev[1 + 2 * k] == user_msg(inputs.drop_last()[k]));
            assert(prev[2 + 2 * k] == assistant_msg(replies.drop_last()[k]));
            assert(inputs.drop_last()[k] == inputs[k]);
            assert(replies.drop_last()[k] == replies[k]);
        }
        assert(cur[1 + 2 * (inputs.len() - 1)] == user_msg(inputs.last()));
        assert(cur[2 + 2 * (inputs.len() - 1)] == assistant_msg(replies.last()));
    }
}

} // verus!
