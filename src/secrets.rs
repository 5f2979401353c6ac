//! Where backend credentials are read from.

use vstd::prelude::*;

verus! {

/// The store that credentials are resolved from.
#[derive(Debug, Clone)]
pub enum SecretManager {
    /// The process environment.
    Env,
    /// A Vault server at this address.
    Vault(String),
}

/// Credentials read from the process environment.
#[derive(Debug, Clone, Copy)]
pub struct EnvSecretManager {}

/// The credential resolver handed to backends.
#[derive(Debug, Clone)]
pub struct Secrets {
    pub secret_manager: SecretManager,
}

impl Secrets {
    /// A Vault-backed resolver when a Vault address is configured, else the
    /// environment.
    pub fn new(vault_address: Option<String>) -> (r: Secrets)
        ensures
            match vault_address {
                Some(a) => r.secret_manager == SecretManager::Vault(a),
                None => r.secret_manager == SecretManager::Env,
            },
    {
        match vault_address {
            Some(a) => Secrets { secret_manager: SecretManager::Vault(a) },
            None => Self::from_env(),
        }
    }

    /// A resolver over the environment.
    pub fn from_env() -> (r: Secrets)
        ensures
            r.secret_manager == SecretManager::Env,
    {
        Secrets { secret_manager: SecretManager::Env }
    }
}

/// The name of the credential a kind of backend needs.
#[derive(Debug, Clone, Copy, PartialEq, Eq, Structural)]
pub enum Provider {
    HuggingFace,
    OpenAI,
    Anthropic,
    Vertex,
}

/// The credential name for a provider.
pub fn secret_name(p: Provider) -> (r: &'static str)
    ensures
        r@ == match p {
            Provider::HuggingFace => "HUGGINGFACE_API_TOKEN"@,
            Provider::OpenAI => "OPENAI_API_TOKEN"@,
            Provider::Anthropic => "ANTHROPIC_API_TOKEN"@,
            Provider::Vertex => "VERTEX_API_TOKEN"@,
        },
{
    match p {
        Provider::HuggingFace => "HUGGINGFACE_API_TOKEN",
        Provider::OpenAI => "OPENAI_API_TOKEN",
        Provider::Anthropic => "ANTHROPIC_API_TOKEN",
        Provider::Vertex => "VERTEX_API_TOKEN",
    }
}

} // verus!
