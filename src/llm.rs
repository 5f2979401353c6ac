//! The capability every backend offers the orchestrator: identity, declared
//! limits and token estimation.

use vstd::prelude::*;
use crate::tokens::{estimate_tokens, token_estimate};

verus! {

/// A chat-capable backend as the orchestrator sees it. A limit of 0 means
/// that the field has no limit of its own.
pub trait ChatLlm {
    /// The stable model name.
    spec fn model_name(&self) -> Seq<char>;

    /// Budget for system, prompt, history and expected generation together.
    spec fn context_budget(&self) -> nat;

    /// Cap on the system text alone, 0 for none.
    spec fn system_cap(&self) -> nat;

    /// Cap on a single prompt, 0 for none.
    spec fn prompt_cap(&self) -> nat;

    /// Cap on the generation, 0 for none.
    spec fn response_cap(&self) -> nat;

    /// Token count of a text under this backend's estimate.
    spec fn tokens_of(&self, s: Seq<char>) -> nat;

    fn name(&self) -> (r: &str)
        ensures
            r@ == self.model_name(),
    ;

    fn context_size(&self) -> (r: usize)
        ensures
            r == self.context_budget(),
    ;

    fn system_limit(&self) -> (r: usize)
        ensures
            r == self.system_cap(),
    ;

    fn prompt_limit(&self) -> (r: usize)
        ensures
            r == self.prompt_cap(),
    ;

    fn response_limit(&self) -> (r: usize)
        ensures
            r == self.response_cap(),
    ;

    fn count_tokens(&self, s: &str) -> (r: usize)
        ensures
            r == self.tokens_of(s@),
    ;
}

/// A backend declared by configuration: its name and limits, with the
/// word-count token estimate.
#[derive(Debug, Clone)]
pub struct Backend {
    pub name: String,
    pub context_size: usize,
    pub system_limit: usize,
    pub prompt_limit: usize,
    pub response_limit: usize,
}

impl Backend {
    /// A backend with the given name and context size and no per-field limits.
    pub fn new(name: String, context_size: usize) -> (r: Backend)
        ensures
            r.name == name,
            r.context_size == context_size,
            r.system_limit == 0,
            r.prompt_limit == 0,
            r.response_limit == 0,
    {
        Backend { name, context_size, system_limit: 0, prompt_limit: 0, response_limit: 0 }
    }

    /// This backend with the given per-field limits.
    pub fn with_limits(self, system_limit: usize, prompt_limit: usize) -> (r: Backend)
        ensures
            r.name == self.name,
            r.context_size == self.context_size,
            r.system_limit == system_limit,
            r.prompt_limit == prompt_limit,
            r.response_limit == self.response_limit,
    {
        Backend { system_limit, prompt_limit, ..self }
    }

    /// A copy of this backend.
    pub fn duplicate(&self) -> (r: Backend)
        ensures
            r == *self,
    {
        Backend {
            name: self.name.clone(),
            context_size: self.context_size,
            system_limit: self.system_limit,
            prompt_limit: self.prompt_limit,
            response_limit: self.response_limit,
        }
    }
}

impl ChatLlm for Backend {
    open spec fn model_name(&self) -> Seq<char> {
        self.name@
    }

    open spec fn context_budget(&self) -> nat {
        self.context_size as nat
    }

    open spec fn system_cap(&self) -> nat {
        self.system_limit as nat
    }

    open spec fn prompt_cap(&self) -> nat {
        self.prompt_limit as nat
    }

    open spec fn response_cap(&self) -> nat {
        self.response_limit as nat
    }

    open spec fn tokens_of(&self, s: Seq<char>) -> nat {
        token_estimate(s)
    }

    fn name(&self) -> (r: &str) {
        self.name.as_str()
    }

    fn context_size(&self) -> (r: usize) {
        self.context_size
    }

    fn system_limit(&self) -> (r: usize) {
        self.system_limit
    }

    fn prompt_limit(&self) -> (r: usize) {
        self.prompt_limit
    }

    fn response_limit(&self) -> (r: usize) {
        self.response_limit
    }

    fn count_tokens(&self, s: &str) -> (r: usize) {
        estimate_tokens(s)
    }
}

} // verus!
