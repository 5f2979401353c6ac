//! Prompt templates for backends that take the whole conversation as one
//! text, each part wrapped in the model's marker tokens.

use vstd::prelude::*;
use crate::request::History;

verus! {

/// `open`, then `text`, then `close`, or `stop` when `close` is empty.
pub open spec fn wrapped(open: Seq<char>, text: Seq<char>, close: Seq<char>, stop: Seq<char>) -> Seq<char> {
    open + text + if close.len() == 0 {
        stop
    } else {
        close
    }
}

/// Marker tokens of a model's prompt template. An empty closing token means
/// that the part is closed with `stop_token`.
#[derive(Debug, Clone)]
pub struct HuggingFacePromptFormat {
    pub system_token: String,
    pub close_system_token: String,
    pub prompt_token: String,
    pub close_prompt_token: String,
    pub assistant_token: String,
    pub close_assistant_token: String,
    pub stop_token: String,
}

impl HuggingFacePromptFormat {
    pub open spec fn system_text(&self, s: Seq<char>) -> Seq<char> {
        wrapped(self.system_token@, s, self.close_system_token@, self.stop_token@)
    }

    pub open spec fn prompt_text(&self, s: Seq<char>) -> Seq<char> {
        wrapped(self.prompt_token@, s, self.close_prompt_token@, self.stop_token@)
    }

    pub open spec fn assistant_text(&self, s: Seq<char>) -> Seq<char> {
        wrapped(self.assistant_token@, s, self.close_assistant_token@, self.stop_token@)
    }

    /// The turns of `h`, oldest first, each as its prompt and its generation.
    pub open spec fn history_text(&self, h: Seq<History>) -> Seq<char>
        decreases h.len(),
    {
        if h.len() == 0 {
            Seq::empty()
        } else {
            self.history_text(h.drop_last()) + self.prompt_text(h.last().prompt@)
                + self.assistant_text(h.last().generation@)
        }
    }

    /// The whole conversation: system text if any, history, prompt, then the
    /// opening of the assistant's part.
    pub open spec fn full_text(&self, system: Option<Seq<char>>, prompt: Seq<char>, h: Seq<History>) -> Seq<char> {
        let head = match system {
            Some(s) => self.system_text(s),
            None => Seq::empty(),
        };
        head + self.history_text(h) + self.prompt_text(prompt) + self.assistant_token@
    }

    pub fn format_system_prompt(&self, system: &str) -> (r: String)
        ensures
            r@ == self.system_text(system@),
    {
        wrap(&self.system_token, system, &self.close_system_token, &self.stop_token)
    }

    pub fn format_prompt(&self, prompt: &str) -> (r: String)
        ensures
            r@ == self.prompt_text(prompt@),
    {
        wrap(&self.prompt_token, prompt, &self.close_prompt_token, &self.stop_token)
    }

    pub fn format_assistant_prompt(&self, assistant: &str) -> (r: String)
        ensures
            r@ == self.assistant_text(assistant@),
    {
        wrap(&self.assistant_token, assistant, &self.close_assistant_token, &self.stop_token)
    }

    /// The conversation as one text for the model.
    pub fn format(&self, system: Option<&str>, prompt: &str, history: &[History]) -> (r: String)
        ensures
            r@ == self.full_text(
                match system {
                    Some(s) => Some(s@),
                    None => None,
                },
                prompt@,
                history@,
            ),
    {
        let mut full = String::new();
        if let Some(s) = system {
            let part = self.format_system_prompt(s);
            full.append(part.as_str());
        }
        let ghost head = full@;
        let n = history.len();
        let mut i: usize = 0;
        while i < n
            invariant
                n == history@.len(),
                i <= n,
                full@ == head + self.history_text(history@.subrange(0, i as int)),
            decreases n - i,
        {
            let h = &history[i];
            let p = self.format_prompt(h.prompt.as_str());
            let g = self.format_assistant_prompt(h.generation.as_str());
            full.append(p.as_str());
            full.append(g.as_str());
            proof {
                let next = history@.subrange(0, i + 1);
                assert(next.drop_last() =~= history@.subrange(0, i as int));
                assert(next.last() == *h);
            }
            i = i + 1;
        }
        assert(history@.subrange(0, n as int) =~= history@);
        let p = self.format_prompt(prompt);
        full.append(p.as_str());
        full.append(self.assistant_token.as_str());
        full
    }
}

/// Marker tokens of a template whose parts all close with `stop_token`.
#[derive(Debug, Clone)]
pub struct OpenPromptFormat {
    pub system_token: String,
    pub prompt_token: String,
    pub assistant_token: String,
    pub stop_token: String,
}

/// Settings of a hosted open model; it takes none yet.
#[derive(Debug, Clone)]
pub struct VertexOpenModelParameters {}

impl OpenPromptFormat {
    /// The same template with every part closed by `stop_token`.
    pub fn as_prompt_format(&self) -> (r: HuggingFacePromptFormat)
        ensures
            r.system_token == self.system_token,
            r.prompt_token == self.prompt_token,
            r.assistant_token == self.assistant_token,
            r.stop_token == self.stop_token,
            r.close_system_token@.len() == 0,
            r.close_prompt_token@.len() == 0,
            r.close_assistant_token@.len() == 0,
    {
        HuggingFacePromptFormat {
            system_token: self.system_token.clone(),
            close_system_token: String::new(),
            prompt_token: self.prompt_token.clone(),
            close_prompt_token: String::new(),
            assistant_token: self.assistant_token.clone(),
            close_assistant_token: String::new(),
            stop_token: self.stop_token.clone(),
        }
    }
}

/// `open`, `text`, and `close`, or `stop` when `close` is empty.
fn wrap(open: &String, text: &str, close: &String, stop: &String) -> (r: String)
    ensures
        r@ == wrapped(open@, text@, close@, stop@),
{
    let mut r = open.clone();
    r.append(text);
    if close.as_str().is_empty() {
        r.append(stop.as_str());
    } else {
        r.append(close.as_str());
    }
    r
}

} // verus!
