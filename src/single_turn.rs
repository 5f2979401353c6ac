//! Single-prompt generation: requests without history, and a scripted model
//! whose replies are fixed by the prompt.

use vstd::prelude::*;
use crate::errors::{ErrorView, ModelError};
use crate::record::ok_tag;
use crate::request::ChatRequest;
use crate::text::{has_prefix, same_text, starts_with};

verus! {

/// Something stored in the idempotency cache under a client-supplied key.
pub trait CacheAble {
    spec fn key(&self) -> Seq<char>;

    fn cache_key(&self) -> (r: &str)
        ensures
            r@ == self.key(),
    ;
}

impl CacheAble for ChatRequest {
    open spec fn key(&self) -> Seq<char> {
        self.uuid@
    }

    fn cache_key(&self) -> (r: &str) {
        self.uuid.as_str()
    }
}

#[derive(Debug, Clone)]
pub struct GenerateRequest {
    pub model: String,
    pub prompt: String,
    pub preprompt: Option<String>,
    pub uuid: String,
}

impl CacheAble for GenerateRequest {
    open spec fn key(&self) -> Seq<char> {
        self.uuid@
    }

    fn cache_key(&self) -> (r: &str) {
        self.uuid.as_str()
    }
}

#[derive(Debug, Clone)]
pub struct GenerateResponse {
    pub generation: String,
    pub uuid: String,
}

impl GenerateResponse {
    /// The stored record of this response: `OK:` and the generation.
    pub fn to_redis_string(&self) -> (r: String)
        ensures
            r@ == ok_tag() + self.generation@,
    {
        proof {
            reveal_strlit("OK:");
        }
        let mut r = String::from_str("OK:");
        r.append(self.generation.as_str());
        assert("OK:"@ =~= ok_tag());
        r
    }

    /// The response stored in record `s`, for request `uuid`, when `s` is a
    /// success record.
    pub fn from_redis_string(s: &str, uuid: &str) -> (r: Option<GenerateResponse>)
        ensures
            match r {
                Some(c) => s@ == ok_tag() + c.generation@ && c.uuid@ == uuid@,
                None => !has_prefix(s@, ok_tag()),
            },
    {
        proof {
            reveal_strlit("OK:");
            assert("OK:"@ =~= ok_tag());
        }
        if !starts_with(s, "OK:") {
            return None;
        }
        let len = s.unicode_len();
        let generation = s.substring_char(3, len);
        assert(s@.subrange(0, 3) =~= ok_tag());
        assert(s@ =~= ok_tag() + generation@);
        Some(
            GenerateResponse { generation: String::from_str(generation), uuid: String::from_str(uuid) },
        )
    }
}

/// A scripted model: a few prompts name the failure to answer with, the
/// prompt `long_response` gets the long reply, and any other the short one.
#[derive(Debug, Clone)]
pub struct MockModel {
    pub name: String,
    pub short: String,
    pub long: String,
}

/// Scripted models, by name.
#[derive(Debug, Clone)]
pub struct MockModels {
    pub models: Vec<MockModel>,
}

/// What the scripted model answers to `prompt`.
pub open spec fn scripted_reply(m: MockModel, prompt: Seq<char>) -> Result<Seq<char>, ErrorView> {
    if prompt == "upstream_error"@ {
        Err(ErrorView::UpstreamModelError)
    } else if prompt == "rate_limit"@ {
        Err(ErrorView::RateLimitExceeded(1000))
    } else if prompt == "prompt_too_long"@ {
        Err(ErrorView::PromptTooLong)
    } else if prompt == "preprompt_too_long"@ {
        Err(ErrorView::SystemTooLong)
    } else if prompt == "error"@ {
        Err(ErrorView::Other("other error"@))
    } else if prompt == "long_response"@ {
        Ok(m.long@)
    } else {
        Ok(m.short@)
    }
}

impl MockModel {
    /// The scripted answer to `prompt`.
    pub fn generate(&self, prompt: &str) -> (r: Result<String, ModelError>)
        ensures
            scripted_reply(*self, prompt@) == match r {
                Ok(g) => Ok(g@),
                Err(e) => Err(e@),
            },
    {
        if same_text(prompt, "upstream_error") {
            Err(ModelError::UpstreamModelError)
        } else if same_text(prompt, "rate_limit") {
            Err(ModelError::RateLimitExceeded(1000))
        } else if same_text(prompt, "prompt_too_long") {
            Err(ModelError::PromptTooLong)
        } else if same_text(prompt, "preprompt_too_long") {
            Err(ModelError::SystemTooLong)
        } else if same_text(prompt, "error") {
            Err(ModelError::Other(String::from_str("other error")))
        } else if same_text(prompt, "long_response") {
            Ok(self.long.clone())
        } else {
            Ok(self.short.clone())
        }
    }
}

} // verus!
