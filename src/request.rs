//! The request and response of one chat call.

use vstd::prelude::*;

verus! {

/// One prior exchange of the conversation.
#[derive(Debug, Clone)]
pub struct History {
    pub prompt: String,
    pub generation: String,
}

/// A chat request. `uuid` is the client's idempotency key; `history` is
/// oldest first.
#[derive(Debug, Clone)]
pub struct ChatRequest {
    pub uuid: String,
    pub model: String,
    pub system: Option<String>,
    pub prompt: String,
    pub history: Vec<History>,
}

/// A successful generation for the request with this `uuid`.
#[derive(Debug, Clone)]
pub struct ChatResponse {
    pub generation: String,
    pub uuid: String,
}

/// The names of the registered models.
#[derive(Debug, Clone)]
pub struct ModelsResponse {
    pub models: Vec<String>,
}

/// The characters of an optional text.
pub open spec fn opt_text(o: Option<String>) -> Option<Seq<char>> {
    match o {
        Some(s) => Some(s@),
        None => None,
    }
}

impl History {
    pub fn new(prompt: String, generation: String) -> (r: History)
        ensures
            r.prompt == prompt,
            r.generation == generation,
    {
        History { prompt, generation }
    }
}

impl ChatResponse {
    /// A copy of this response.
    pub fn duplicate(&self) -> (r: ChatResponse)
        ensures
            r == *self,
    {
        ChatResponse { generation: self.generation.clone(), uuid: self.uuid.clone() }
    }
}

} // verus!
