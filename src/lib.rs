//! Request orchestration for a gateway in front of several text-generation
//! backends: model registry, context-window trimming, idempotency records and
//! a unified error taxonomy.

pub mod anthropic;
pub mod decimal;
pub mod errors;
pub mod llm;
pub mod openai;
pub mod prompt_format;
pub mod record;
pub mod request;
pub mod secrets;
pub mod single_turn;
pub mod state;
pub mod text;
pub mod tokens;
pub mod trim;
pub mod upstream;
