//! The message list of a chat-completion backend and the reading of its reply.

use vstd::prelude::*;
use crate::errors::ModelError;
use crate::request::{opt_text, History};

verus! {

#[allow(non_camel_case_types)]
#[derive(Debug, Clone, Copy, PartialEq, Eq, Structural)]
pub enum MessageRole {
    user,
    system,
    assistant,
    function,
}

/// One message sent to the backend.
#[derive(Debug, Clone)]
pub struct ChatCompletionMessage {
    pub role: MessageRole,
    pub content: String,
    pub name: Option<String>,
}

/// One message in the backend's reply; its content may be absent.
#[derive(Debug, Clone)]
pub struct ChatCompletionMessageForResponse {
    pub role: MessageRole,
    pub content: Option<String>,
    pub name: Option<String>,
}

#[allow(non_camel_case_types)]
#[derive(Debug, Clone, Copy, PartialEq, Eq, Structural)]
pub enum FinishReason {
    stop,
    length,
    function_call,
    content_filter,
    null,
}

#[derive(Debug, Clone)]
pub struct ChatCompletionChoice {
    pub index: i64,
    pub message: ChatCompletionMessageForResponse,
    pub finish_reason: FinishReason,
}

#[derive(Debug, Clone, Copy)]
pub struct Usage {
    pub prompt_tokens: i32,
    pub completion_tokens: i32,
    pub total_tokens: i32,
}

/// The backend's reply.
#[derive(Debug, Clone)]
pub struct ChatCompletionResponse {
    pub id: String,
    pub object: String,
    pub created: i64,
    pub model: String,
    pub choices: Vec<ChatCompletionChoice>,
    pub usage: Usage,
}

/// Roles and texts of the messages for a history, oldest first: each turn
/// is a user message and an assistant message.
pub open spec fn history_messages(h: Seq<History>) -> Seq<(MessageRole, Seq<char>)>
    decreases h.len(),
{
    if h.len() == 0 {
        Seq::empty()
    } else {
        history_messages(h.drop_last()) + seq![
            (MessageRole::user, h.last().prompt@),
            (MessageRole::assistant, h.last().generation@),
        ]
    }
}

/// Roles and texts of all messages: the system message if any, the history,
/// then the prompt as a user message.
pub open spec fn conversation_messages(
    system: Option<Seq<char>>,
    prompt: Seq<char>,
    h: Seq<History>,
) -> Seq<(MessageRole, Seq<char>)> {
    let head = match system {
        Some(s) => seq![(MessageRole::system, s)],
        None => Seq::empty(),
    };
    head + history_messages(h) + seq![(MessageRole::user, prompt)]
}

pub open spec fn message_view(m: ChatCompletionMessage) -> (MessageRole, Seq<char>) {
    (m.role, m.content@)
}

fn text_message(role: MessageRole, content: String) -> (r: ChatCompletionMessage)
    ensures
        message_view(r) == (role, content@),
        r.name is None,
{
    ChatCompletionMessage { role, content, name: None }
}

/// The messages of a conversation, none of them named.
pub fn chat_messages(system: Option<String>, prompt: String, history: &Vec<History>) -> (r: Vec<ChatCompletionMessage>)
    ensures
        r@.map_values(|m: ChatCompletionMessage| message_view(m)) == conversation_messages(
            opt_text(system),
            prompt@,
            history@,
        ),
        forall|i: int| 0 <= i < r@.len() ==> (#[trigger] r@[i]).name is None,
{
    let ghost sys = opt_text(system);
    let mut messages: Vec<ChatCompletionMessage> = Vec::new();
    if let Some(s) = system {
        messages.push(text_message(MessageRole::system, s));
    }
    let ghost head = messages@.map_values(|m: ChatCompletionMessage| message_view(m));
    assert(head =~= match sys {
        Some(s) => seq![(MessageRole::system, s)],
        None => Seq::<(MessageRole, Seq<char>)>::empty(),
    });
    let n = history.len();
    let mut i: usize = 0;
    while i < n
        invariant
            n == history@.len(),
            i <= n,
            messages@.map_values(|m: ChatCompletionMessage| message_view(m)) == head
                + history_messages(history@.subrange(0, i as int)),
            forall|j: int| 0 <= j < messages@.len() ==> (#[trigger] messages@[j]).name is None,
        decreases n - i,
    {
        let h = &history[i];
        let ghost before = messages@;
        messages.push(text_message(MessageRole::user, h.prompt.clone()));
        messages.push(text_message(MessageRole::assistant, h.generation.clone()));
        proof {
            let next = history@.subrange(0, i + 1);
            assert(next.drop_last() =~= history@.subrange(0, i as int));
            assert(next.last() == *h);
            assert(messages@.map_values(|m: ChatCompletionMessage| message_view(m)) =~= before.map_values(
                |m: ChatCompletionMessage| message_view(m),
            ) + seq![(MessageRole::user, h.prompt@), (MessageRole::assistant, h.generation@)]);
        }
        i = i + 1;
    }
    assert(history@.subrange(0, n as int) =~= history@);
    let ghost before = messages@;
    messages.push(text_message(MessageRole::user, prompt));
    assert(messages@.map_values(|m: ChatCompletionMessage| message_view(m)) =~= before.map_values(
        |m: ChatCompletionMessage| message_view(m),
    ) + seq![(MessageRole::user, prompt@)]);
    messages
}

impl ChatCompletionResponse {
    /// The content of the last choice; an upstream error when there is no
    /// choice or it has no content.
    pub fn generation(self) -> (r: Result<String, ModelError>)
        ensures
            self.choices@.len() == 0 ==> r == Err::<String, ModelError>(
                ModelError::UpstreamModelError,
            ),
            self.choices@.len() > 0 ==> r == match self.choices@.last().message.content {
                Some(c) => Ok::<String, ModelError>(c),
                None => Err(ModelError::UpstreamModelError),
            },
    {
        let mut choices = self.choices;
        match choices.pop() {
            Some(choice) => match choice.message.content {
                Some(c) => Ok(c),
                None => Err(ModelError::UpstreamModelError),
            },
            None => Err(ModelError::UpstreamModelError),
        }
    }
}

} // verus!
