//! The message list of a messages-style backend, which takes the system text
//! apart from the conversation.

use vstd::prelude::*;
use crate::request::History;

verus! {

#[allow(non_camel_case_types)]
#[derive(Debug, Clone, Copy, PartialEq, Eq, Structural)]
pub enum MessageRole {
    user,
    assistant,
}

#[derive(Debug, Clone, Copy)]
pub struct Usage {
    pub input_tokens: i32,
    pub output_tokens: i32,
}

/// One text message of the conversation.
#[derive(Debug, Clone)]
pub struct TextMessage {
    pub role: MessageRole,
    pub text: String,
}

pub open spec fn text_message_view(m: TextMessage) -> (MessageRole, Seq<char>) {
    (m.role, m.text@)
}

/// Roles and texts for a history, oldest first: each turn is a user message
/// and an assistant message.
pub open spec fn turn_messages(h: Seq<History>) -> Seq<(MessageRole, Seq<char>)>
    decreases h.len(),
{
    if h.len() == 0 {
        Seq::empty()
    } else {
        turn_messages(h.drop_last()) + seq![
            (MessageRole::user, h.last().prompt@),
            (MessageRole::assistant, h.last().generation@),
        ]
    }
}

/// The conversation as messages: the history, then the prompt as a user
/// message.
pub fn conversation(prompt: String, history: &Vec<History>) -> (r: Vec<TextMessage>)
    ensures
        r@.map_values(|m: TextMessage| text_message_view(m)) == turn_messages(history@) + seq![
            (MessageRole::user, prompt@),
        ],
{
    let mut messages: Vec<TextMessage> = Vec::new();
    let n = history.len();
    let mut i: usize = 0;
    assert(messages@.map_values(|m: TextMessage| text_message_view(m)) =~= turn_messages(
        history@.subrange(0, 0),
    ));
    while i < n
        invariant
            n == history@.len(),
            i <= n,
            messages@.map_values(|m: TextMessage| text_message_view(m)) == turn_messages(
                history@.subrange(0, i as int),
            ),
        decreases n - i,
    {
        let h = &history[i];
        let ghost before = messages@;
        messages.push(TextMessage { role: MessageRole::user, text: h.prompt.clone() });
        messages.push(TextMessage { role: MessageRole::assistant, text: h.generation.clone() });
        proof {
            let next = history@.subrange(0, i + 1);
            assert(next.drop_last() =~= history@.subrange(0, i as int));
            assert(next.last() == *h);
            assert(messages@.map_values(|m: TextMessage| text_message_view(m)) =~= before.map_values(
                |m: TextMessage| text_message_view(m),
            ) + seq![(MessageRole::user, h.prompt@), (MessageRole::assistant, h.generation@)]);
        }
        i = i + 1;
    }
    assert(history@.subrange(0, n as int) =~= history@);
    let ghost before = messages@;
    messages.push(TextMessage { role: MessageRole::user, text: prompt });
    assert(messages@.map_values(|m: TextMessage| text_message_view(m)) =~= before.map_values(
        |m: TextMessage| text_message_view(m),
    ) + seq![(MessageRole::user, prompt@)]);
    messages
}

/// The system text of the request, or else the model's configured one.
pub fn system_text(system: Option<String>, configured: Option<String>) -> (r: Option<String>)
    ensures
        r == (if system is Some {
            system
        } else {
            configured
        }),
{
    match system {
        Some(s) => Some(s),
        None => configured,
    }
}

} // verus!
