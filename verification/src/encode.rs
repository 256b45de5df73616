//! Building the JSON request body sent to the completion endpoint: string
//! escaping and the `{"model":…,"stream":…,"messages":[…]}` layout, each
//! character pinned down by a specification function.

use vstd::prelude::*;
use vstd::string::*;
use crate::api_structs::{Chatwise, ChatwiseView, Message, MessageView, role_str};
use crate::text::push_char;

verus! {

/// The lower-case hexadecimal digit for `n`, for `n < 16`.
pub open spec fn hex_digit(n: u32) -> char {
    if n == 0 {
        '0'
    } else if n == 1 {
        '1'
    } else if n == 2 {
        '2'
    } else if n == 3 {
        '3'
    } else if n == 4 {
        '4'
    } else if n == 5 {
        '5'
    } else if n == 6 {
        '6'
    } else if n == 7 {
        '7'
    } else if n == 8 {
        '8'
    } else if n == 9 {
        '9'
    } else if n == 10 {
        'a'
    } else if n == 11 {
        'b'
    } else if n == 12 {
        'c'
    } else if n == 13 {
        'd'
    } else if n == 14 {
        'e'
    } else {
        'f'
    }
}

fn hex_char(n: u32) -> (c: char)
    requires
        n < 16,
    ensures
        c == hex_digit(n),
{
    if n == 0 {
        '0'
    } else if n == 1 {
        '1'
    } else if n == 2 {
        '2'
    } else if n == 3 {
        '3'
    } else if n == 4 {
        '4'
    } else if n == 5 {
        '5'
    } else if n == 6 {
        '6'
    } else if n == 7 {
        '7'
    } else if n == 8 {
        '8'
    } else if n == 9 {
        '9'
    } else if n == 10 {
        'a'
    } else if n == 11 {
        'b'
    } else if n == 12 {
        'c'
    } else if n == 13 {
        'd'
    } else if n == 14 {
        'e'
    } else {
        'f'
    }
}

/// How one character appears inside a JSON string literal: quote, backslash
/// and the named control characters get a two-character escape, the remaining
/// control characters a `\u00XX` escape, everything else stands as itself.
pub open spec fn json_escaped_char(c: char) -> Seq<char> {
    if c == '"' {
        seq!['\\', '"']
    } else if c == '\\' {
        seq!['\\', '\\']
    } else if c == '\n' {
        seq!['\\', 'n']
    } else if c == '\r' {
        seq!['\\', 'r']
    } else if c == '\t' {
        seq!['\\', 't']
    } else if c == '\u{8}' {
        seq!['\\', 'b']
    } else if c == '\u{c}' {
        seq!['\\', 'f']
    } else if (c as u32) < 0x20 {
        seq!['\\', 'u', '0', '0', hex_digit((c as u32) / 16), hex_digit((c as u32) % 16)]
    } else {
        seq![c]
    }
}

/// The JSON escaping of a whole string, character by character, in order.
pub open spec fn json_escaped(s: Seq<char>) -> Seq<char>
    decreases s.len(),
{
    if s.len() == 0 {
        Seq::<char>::empty()
    } else {
        json_escaped(s.drop_last()) + json_escaped_char(s.last())
    }
}

/// Appends the JSON escaping of `s` to `out`.
fn append_escaped(out: &mut String, s: &str)
    ensures
        final(out)@ == old(out)@ + json_escaped(s@),
{
    let len = s.unicode_len();
    let mut i: usize = 0;
    while i < len
        invariant
            i <= len,
            len == s@.len(),
            out@ =~= old(out)@ + json_escaped(s@.subrange(0, i as int)),
        decreases len - i,
    {
        let c = s.get_char(i);
        if c == '"' {
            push_char(out, '\\');
            push_char(out, '"');
        } else if c == '\\' {
            push_char(out, '\\');
            push_char(out, '\\');
        } else if c == '\n' {
            push_char(out, '\\');
            push_char(out, 'n');
        } else if c == '\r' {
            push_char(out, '\\');
            push_char(out, 'r');
        } else if c == '\t' {
            push_char(out, '\\');
            push_char(out, 't');
        } else if c == '\u{8}' {
            push_char(out, '\\');
            push_char(out, 'b');
        } else if c == '\u{c}' {
            push_char(out, '\\');
            push_char(out, 'f');
        } else if (c as u32) < 0x20 {
            push_char(out, '\\');
            push_char(out, 'u');
            push_char(out, '0');
            push_char(out, '0');
            push_char(out, hex_char((c as u32) / 16));
            push_char(out, hex_char((c as u32) % 16));
        } else {
            push_char(out, c);
        }
        proof {
            let pre = s@.subrange(0, i as int);
            let ext = s@.subrange(0, i + 1 as int);
            assert(ext.drop_last() =~= pre);
            assert(ext.last() == c);
            assert(out@ =~= old(out)@ + json_escaped(pre) + json_escaped_char(c));
            assert(out@ =~= old(out)@ + json_escaped(ext));
        }
        i = i + 1;
    }
    proof {
        assert(s@.subrange(0, len as int) =~= s@);
    }
}

/// The JSON object for one message: its role's wire spelling and its escaped
/// content, in that field order.
pub open spec fn message_json(m: MessageView) -> Seq<char> {
    "{\"role\":\""@ + role_str(m.role) + "\",\"content\":\""@ + json_escaped(m.content) + "\"}"@
}

/// The JSON array body for a transcript: every message's object, in transcript
/// order, separated by commas — nothing is dropped and nothing reordered.
pub open spec fn messages_json(msgs: Seq<MessageView>) -> Seq<char>
    decreases msgs.len(),
{
    if msgs.len() == 0 {
        Seq::<char>::empty()
    } else if msgs.len() == 1 {
        message_json(msgs[0])
    } else {
        messages_json(msgs.drop_last()) + ","@ + message_json(msgs.last())
    }
}

/// Everything of the request body that stands before the message list.
pub open spec fn body_prefix(c: ChatwiseView) -> Seq<char> {
    "{\"model\":\""@ + json_escaped(c.model) + "\",\"stream\":"@ + (if c.stream {
        "true"@
    } else {
        "false"@
    }) + ",\"messages\":["@
}

/// The whole request body for one turn: model, streaming flag, and the full
/// ordered transcript.
pub open spec fn body_spec(c: ChatwiseView) -> Seq<char> {
    body_prefix(c) + messages_json(c.messages) + "]}"@
}

/// Appends the JSON object for `m` to `out`.
fn append_message_json(out: &mut String, m: &Message)
    ensures
        final(out)@ == old(out)@ + message_json(m@),
{
    out.append("{\"role\":\"");
    out.append(m.role.as_str());
    out.append("\",\"content\":\"");
    append_escaped(out, m.content.as_str());
    out.append("\"}");
    proof {
        assert(out@ =~= old(out)@ + message_json(m@));
    }
}

/// Serializes the request body exactly as [`body_spec`] lays it out.
pub fn encode_body(chat: &Chatwise) -> (r: String)
    ensures
        r@ == body_spec(chat@),
{
    let mut out = String::from_str("{\"model\":\"");
    append_escaped(&mut out, chat.model.as_str());
    out.append("\",\"stream\":");
    if chat.stream {
        out.append("true");
    } else {
        out.append("false");
    }
    out.append(",\"messages\":[");
    proof {
        assert(out@ =~= body_prefix(chat@));
    }
    let n = chat.messages.len();
    let mut i: usize = 0;
    while i < n
        invariant
            i <= n,
            n == chat@.messages.len(),
            chat@.messages.len() == chat.messages@.len(),
            forall|j: int| 0 <= j < n ==> chat@.messages[j] == chat.messages@[j]@,
            out@ =~= body_prefix(chat@) + messages_json(chat@.messages.subrange(0, i as int)),
        decreases n - i,
    {
        if i > 0 {
            out.append(",");
        }
        append_message_json(&mut out, &chat.messages[i]);
        proof {
            let pre = chat@.messages.subrange(0, i as int);
            let ext = chat@.messages.subrange(0, i + 1 as int);
            assert(ext.drop_last() =~= pre);
            assert(ext.last() == chat@.messages[i as int]);
            assert(out@ =~= body_prefix(chat@) + messages_json(ext));
        }
        i = i + 1;
    }
    out.append("]}");
    proof {
        assert(chat@.messages.subrange(0, n as int) =~= chat@.messages);
        assert(out@ =~= body_spec(chat@));
    }
    out
}

/// The value of the authorization header sent with every request: the bearer
/// scheme word, a space, and the API key as it was given.
pub fn bearer_header_value(api_key: &str) -> (r: String)
    ensures
        r@ == "Bearer "@ + api_key@,
{
    let mut out = String::from_str("Bearer ");
    out.append(api_key);
    out
}

/// Law: encoding never truncates the transcript. The body for a transcript
/// extended by one message is the body for the old transcript with its closing
/// `]}` replaced by a separator, the new message's object, and `]}` again —
/// every earlier turn's encoding stands unchanged, in order, before the new
/// one's.
pub proof fn lemma_body_grows_by_one(c: ChatwiseView, m: MessageView)
    requires
        c.messages.len() > 0,
    ensures
        body_spec(ChatwiseView { messages: c.messages.push(m), ..c }) == body_prefix(c)
            + messages_json(c.messages) + ","@ + message_json(m) + "]}"@,
{
    let c2 = ChatwiseView { messages: c.messages.push(m), ..c };
    assert(c2.messages.drop_last() =~= c.messages);
    assert(c2.messages.last() == m);
    assert(body_prefix(c2) == body_prefix(c));
    assert(body_spec(c2) =~= body_prefix(c) + messages_json(c.messages) + ","@ + message_json(m)
        + "]}"@);
}

} // verus!
