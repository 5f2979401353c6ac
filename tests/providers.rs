use llm_router::anthropic::{conversation, system_text, MessageRole as AnthropicRole};
use llm_router::errors::ModelError;
use llm_router::openai::{
    chat_messages, ChatCompletionChoice, ChatCompletionMessageForResponse, ChatCompletionResponse,
    FinishReason, MessageRole, Usage,
};
use llm_router::prompt_format::{HuggingFacePromptFormat, OpenPromptFormat};
use llm_router::request::History;
use llm_router::secrets::{secret_name, Provider, SecretManager, Secrets};
use llm_router::single_turn::{CacheAble, GenerateRequest, MockModel};
use llm_router::upstream::{classify_status, last_generation, require_secret};

fn template(close: bool) -> HuggingFacePromptFormat {
    let c = |s: &str| if close { s.to_string() } else { String::new() };
    HuggingFacePromptFormat {
        system_token: "<s>".to_string(),
        close_system_token: c("</s>"),
        prompt_token: "<u>".to_string(),
        close_prompt_token: c("</u>"),
        assistant_token: "<a>".to_string(),
        close_assistant_token: c("</a>"),
        stop_token: "|".to_string(),
    }
}

fn history() -> Vec<History> {
    vec![History::new("p1".to_string(), "g1".to_string()), History::new("p2".to_string(), "g2".to_string())]
}

#[test]
fn template_parts_close_with_their_token_or_stop() {
    let open = template(false);
    assert_eq!(open.format_system_prompt("sys"), "<s>sys|");
    assert_eq!(open.format_prompt("hi"), "<u>hi|");
    assert_eq!(open.format_assistant_prompt("yo"), "<a>yo|");
    let closed = template(true);
    assert_eq!(closed.format_system_prompt("sys"), "<s>sys</s>");
    assert_eq!(closed.format_prompt("hi"), "<u>hi</u>");
    assert_eq!(closed.format_assistant_prompt("yo"), "<a>yo</a>");
}

#[test]
fn template_formats_the_whole_conversation() {
    let t = template(true);
    assert_eq!(
        t.format(Some("sys"), "now", &history()),
        "<s>sys</s><u>p1</u><a>g1</a><u>p2</u><a>g2</a><u>now</u><a>"
    );
    assert_eq!(t.format(None, "now", &[]), "<u>now</u><a>");
    let open = OpenPromptFormat {
        system_token: "S".to_string(),
        prompt_token: "U".to_string(),
        assistant_token: "A".to_string(),
        stop_token: ".".to_string(),
    };
    assert_eq!(open.as_prompt_format().format(Some("x"), "y", &history()), "Sx.Up1.Ag1.Up2.Ag2.Uy.A");
}

#[test]
fn chat_messages_follow_the_conversation() {
    let m = chat_messages(Some("sys".to_string()), "now".to_string(), &history());
    let got: Vec<(MessageRole, &str)> = m.iter().map(|x| (x.role, x.content.as_str())).collect();
    assert_eq!(
        got,
        vec![
            (MessageRole::system, "sys"),
            (MessageRole::user, "p1"),
            (MessageRole::assistant, "g1"),
            (MessageRole::user, "p2"),
            (MessageRole::assistant, "g2"),
            (MessageRole::user, "now"),
        ]
    );
    assert!(m.iter().all(|x| x.name.is_none()));
    assert_eq!(chat_messages(None, "x".to_string(), &vec![]).len(), 1);
}

#[test]
fn anthropic_conversation_has_no_system_message() {
    let m = conversation("now".to_string(), &history());
    let got: Vec<(AnthropicRole, &str)> = m.iter().map(|x| (x.role, x.text.as_str())).collect();
    assert_eq!(
        got,
        vec![
            (AnthropicRole::user, "p1"),
            (AnthropicRole::assistant, "g1"),
            (AnthropicRole::user, "p2"),
            (AnthropicRole::assistant, "g2"),
            (AnthropicRole::user, "now"),
        ]
    );
    assert_eq!(system_text(None, Some("cfg".to_string())), Some("cfg".to_string()));
    assert_eq!(system_text(Some("req".to_string()), Some("cfg".to_string())), Some("req".to_string()));
}

fn reply(contents: Vec<Option<&str>>) -> ChatCompletionResponse {
    ChatCompletionResponse {
        id: "id".to_string(),
        object: "chat.completion".to_string(),
        created: 0,
        model: "gpt".to_string(),
        choices: contents
            .into_iter()
            .enumerate()
            .map(|(i, c)| ChatCompletionChoice {
                index: i as i64,
                message: ChatCompletionMessageForResponse {
                    role: MessageRole::assistant,
                    content: c.map(|s| s.to_string()),
                    name: None,
                },
                finish_reason: FinishReason::stop,
            })
            .collect(),
        usage: Usage { prompt_tokens: 1, completion_tokens: 1, total_tokens: 2 },
    }
}

#[test]
fn completion_reply_gives_the_last_choice() {
    assert_eq!(reply(vec![Some("a"), Some("b")]).generation(), Ok("b".to_string()));
    assert_eq!(reply(vec![]).generation(), Err(ModelError::UpstreamModelError));
    assert_eq!(reply(vec![Some("a"), None]).generation(), Err(ModelError::UpstreamModelError));
    assert_eq!(last_generation(vec!["x".to_string(), "y".to_string()]), Ok("y".to_string()));
    assert_eq!(last_generation(vec![]), Err(ModelError::UpstreamModelError));
}

#[test]
fn backend_status_is_classified() {
    assert_eq!(classify_status(200), None);
    assert_eq!(classify_status(302), None);
    assert_eq!(classify_status(429), Some(ModelError::RateLimitExceeded(1000)));
    assert_eq!(classify_status(404), Some(ModelError::UpstreamModelError));
    assert_eq!(classify_status(400), Some(ModelError::UpstreamModelError));
    assert_eq!(classify_status(500), Some(ModelError::UpstreamModelError));
    assert_eq!(classify_status(599), Some(ModelError::UpstreamModelError));
}

#[test]
fn missing_credential_is_an_error() {
    assert_eq!(require_secret(Some("k".to_string())), Ok("k".to_string()));
    assert_eq!(require_secret(None), Err(ModelError::Other("Missing Auth".to_string())));
    assert_eq!(secret_name(Provider::HuggingFace), "HUGGINGFACE_API_TOKEN");
    assert_eq!(secret_name(Provider::OpenAI), "OPENAI_API_TOKEN");
    assert_eq!(secret_name(Provider::Anthropic), "ANTHROPIC_API_TOKEN");
    assert_eq!(secret_name(Provider::Vertex), "VERTEX_API_TOKEN");
}

#[test]
fn secrets_prefer_vault_when_configured() {
    assert!(matches!(Secrets::new(None).secret_manager, SecretManager::Env));
    match Secrets::new(Some("http://vault:8200".to_string())).secret_manager {
        SecretManager::Vault(a) => assert_eq!(a, "http://vault:8200"),
        other => panic!("unexpected {:?}", other),
    }
    assert!(matches!(Secrets::from_env().secret_manager, SecretManager::Env));
}

#[test]
fn scripted_model_answers_by_prompt() {
    let m = MockModel { name: "mock".to_string(), short: "s".to_string(), long: "l".to_string() };
    assert_eq!(m.generate("upstream_error"), Err(ModelError::UpstreamModelError));
    assert_eq!(m.generate("rate_limit"), Err(ModelError::RateLimitExceeded(1000)));
    assert_eq!(m.generate("prompt_too_long"), Err(ModelError::PromptTooLong));
    assert_eq!(m.generate("preprompt_too_long"), Err(ModelError::SystemTooLong));
    assert_eq!(m.generate("error"), Err(ModelError::Other("other error".to_string())));
    assert_eq!(m.generate("long_response"), Ok("l".to_string()));
    assert_eq!(m.generate("anything"), Ok("s".to_string()));
}

#[test]
fn cache_key_is_the_request_id() {
    let g = GenerateRequest {
        model: "m".to_string(),
        prompt: "p".to_string(),
        preprompt: None,
        uuid: "id-1".to_string(),
    };
    assert_eq!(g.cache_key(), "id-1");
}

#[test]
fn error_kinds_map_to_status_classes() {
    assert_eq!(ModelError::ModelNotFound.status_code(), 404);
    assert_eq!(ModelError::PromptTooLong.status_code(), 422);
    assert_eq!(ModelError::SystemTooLong.status_code(), 422);
    assert_eq!(ModelError::HistoryPromptTooLong(2).status_code(), 422);
    assert_eq!(ModelError::RateLimitExceeded(5).status_code(), 429);
    assert_eq!(ModelError::UpstreamModelError.status_code(), 500);
    assert_eq!(ModelError::Other("x".to_string()).status_code(), 500);
    assert_eq!(ModelError::RateLimitExceeded(5).retry_after_ms(), Some(5));
    assert_eq!(ModelError::PromptTooLong.retry_after_ms(), None);
    assert_eq!(ModelError::ModelNotFound.error_response().error, "Model not found");
    assert_eq!(ModelError::ModelNotFound.error_response().retry_after_ms, None);
    let throttled = ModelError::RateLimitExceeded(1500).error_response();
    assert_eq!(throttled.error, "Rate limit exceeded");
    assert_eq!(throttled.retry_after_ms, Some(1500));
    assert_eq!(ModelError::HistoryPromptTooLong(1).error_response().error, "Historical prompt too long");
    assert_eq!(ModelError::Other("x".to_string()).error_response().error, "Other error");
}
