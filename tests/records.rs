use llm_router::decimal::{decimal, parse_decimal};
use llm_router::errors::ModelError;
use llm_router::record::{decode_outcome, encode_outcome};
use llm_router::request::ChatResponse;
use llm_router::single_turn::GenerateResponse;

fn response(generation: &str, uuid: &str) -> ChatResponse {
    ChatResponse { generation: generation.to_string(), uuid: uuid.to_string() }
}

#[test]
fn decimal_round_trip() {
    assert_eq!(decimal(0), "0");
    assert_eq!(decimal(1000), "1000");
    assert_eq!(decimal(u64::MAX), "18446744073709551615");
    assert_eq!(parse_decimal("1000"), Some(1000));
    assert_eq!(parse_decimal("18446744073709551615"), Some(u64::MAX));
    assert_eq!(parse_decimal("18446744073709551616"), None);
    assert_eq!(parse_decimal("007"), None);
    assert_eq!(parse_decimal(""), None);
    assert_eq!(parse_decimal("1a"), None);
}

#[test]
fn success_record_format() {
    let r = response("hello: world", "r1");
    assert_eq!(r.to_redis_string(), "OK:hello: world");
    let back = ChatResponse::from_redis_string("OK:hello: world", "r2").unwrap();
    assert_eq!(back.generation, "hello: world");
    assert_eq!(back.uuid, "r2");
    assert!(ChatResponse::from_redis_string("ERR:\"ModelNotFound\"", "r1").is_none());
    assert!(ChatResponse::from_redis_string("no separator", "r1").is_none());
}

#[test]
fn generate_response_record_format() {
    let r = GenerateResponse { generation: "text".to_string(), uuid: "u".to_string() };
    assert_eq!(r.to_redis_string(), "OK:text");
    let back = GenerateResponse::from_redis_string("OK:", "u").unwrap();
    assert_eq!(back.generation, "");
    assert!(GenerateResponse::from_redis_string("KO:x", "u").is_none());
}

#[test]
fn error_records_are_json_after_the_tag() {
    assert_eq!(ModelError::ModelNotFound.to_redis_string(), "ERR:\"ModelNotFound\"");
    assert_eq!(ModelError::UpstreamModelError.to_redis_string(), "ERR:\"UpstreamModelError\"");
    assert_eq!(ModelError::PromptTooLong.to_redis_string(), "ERR:\"PromptTooLong\"");
    assert_eq!(ModelError::SystemTooLong.to_redis_string(), "ERR:\"SystemTooLong\"");
    assert_eq!(
        ModelError::HistoryPromptTooLong(3).to_redis_string(),
        "ERR:{\"HistoryPromptTooLong\":3}"
    );
    assert_eq!(
        ModelError::RateLimitExceeded(1000).to_redis_string(),
        "ERR:{\"RateLimitExceeded\":1000}"
    );
    assert_eq!(
        ModelError::Other("Missing Auth".to_string()).to_redis_string(),
        "ERR:{\"Other\":\"Missing Auth\"}"
    );
    assert_eq!(
        ModelError::Other("say \"hi\"\n".to_string()).to_redis_string(),
        "ERR:{\"Other\":\"say \\\"hi\\\"\\n\"}"
    );
}

#[test]
fn error_records_read_back() {
    let all = vec![
        ModelError::ModelNotFound,
        ModelError::UpstreamModelError,
        ModelError::HistoryPromptTooLong(0),
        ModelError::RateLimitExceeded(u64::MAX),
        ModelError::PromptTooLong,
        ModelError::SystemTooLong,
        ModelError::Other("tab\there \u{1} \"q\" \\".to_string()),
    ];
    for e in all {
        let rec = e.to_redis_string();
        assert_eq!(ModelError::from_redis_string(&rec), Some(e));
    }
}

#[test]
fn other_message_in_any_json_spelling_reads_back() {
    assert_eq!(
        ModelError::from_redis_string("ERR:{\"Other\":\"\\u0041b\"}"),
        Some(ModelError::Other("Ab".to_string()))
    );
}

#[test]
fn malformed_error_records_are_absent() {
    assert_eq!(ModelError::from_redis_string("ERR:"), None);
    assert_eq!(ModelError::from_redis_string("ERR:\"Nope\""), None);
    assert_eq!(ModelError::from_redis_string("ERR:{\"RateLimitExceeded\":}"), None);
    assert_eq!(ModelError::from_redis_string("ERR:{\"RateLimitExceeded\":12"), None);
    assert_eq!(ModelError::from_redis_string("ERR:{\"Other\":unquoted}"), None);
    assert_eq!(ModelError::from_redis_string("OK:\"ModelNotFound\""), None);
}

#[test]
fn outcomes_round_trip() {
    let ok: Result<ChatResponse, ModelError> = Ok(response("gen", "r1"));
    let rec = encode_outcome(&ok);
    assert_eq!(rec, "OK:gen");
    match decode_outcome(&rec, "r1") {
        Some(Ok(c)) => {
            assert_eq!(c.generation, "gen");
            assert_eq!(c.uuid, "r1");
        }
        _ => panic!("expected a success"),
    }
    let err: Result<ChatResponse, ModelError> = Err(ModelError::RateLimitExceeded(250));
    let rec = encode_outcome(&err);
    assert!(matches!(decode_outcome(&rec, "r1"), Some(Err(ModelError::RateLimitExceeded(250)))));
    assert!(decode_outcome("garbage", "r1").is_none());
    assert!(decode_outcome("ERR:{}", "r1").is_none());
}
