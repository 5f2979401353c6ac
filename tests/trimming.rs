use llm_router::errors::ModelError;
use llm_router::llm::{Backend, ChatLlm};
use llm_router::request::{ChatRequest, History};
use llm_router::tokens::{count_words, estimate_tokens};

fn words(n: usize) -> String {
    vec!["w"; n].join(" ")
}

fn request(prompt: &str, system: Option<&str>, history: Vec<History>) -> ChatRequest {
    ChatRequest {
        uuid: "r1".to_string(),
        model: "m1".to_string(),
        system: system.map(|s| s.to_string()),
        prompt: prompt.to_string(),
        history,
    }
}

fn turn(prompt: &str, generation: &str) -> History {
    History::new(prompt.to_string(), generation.to_string())
}

#[test]
fn word_count_ignores_runs_of_whitespace() {
    assert_eq!(count_words(""), 0);
    assert_eq!(count_words("   "), 0);
    assert_eq!(count_words("hello"), 1);
    assert_eq!(count_words("  hello  world\tfoo\nbar  "), 4);
    assert_eq!(count_words("a\u{3000}b\u{a0}c"), 3);
}

#[test]
fn token_estimate_rounds_up() {
    assert_eq!(estimate_tokens(""), 0);
    assert_eq!(estimate_tokens("one"), 2);
    assert_eq!(estimate_tokens("one two three"), 5);
    assert_eq!(estimate_tokens(&words(20)), 27);
    assert_eq!(estimate_tokens(&words(54)), 73);
    assert_eq!(estimate_tokens(&words(100)), 135);
}

#[test]
fn backend_reports_its_limits() {
    let b = Backend::new("m1".to_string(), 1000).with_limits(7, 9);
    assert_eq!(b.name(), "m1");
    assert_eq!(b.context_size(), 1000);
    assert_eq!(b.system_limit(), 7);
    assert_eq!(b.prompt_limit(), 9);
    assert_eq!(b.response_limit(), 0);
    assert_eq!(b.count_tokens("a b c d"), 6);
}

#[test]
fn keeps_the_most_recent_turns_that_fit() {
    // Each turn costs 27 + 73 = 100 tokens.
    let history: Vec<History> = (0..5).map(|i| turn(&words(20), &format!("{} {}", i, words(53)))).collect();
    let mut req = request("", None, history);
    let llm = Backend::new("m1".to_string(), 250);
    assert_eq!(req.trim(&llm), Ok(()));
    assert_eq!(req.history.len(), 2);
    assert!(req.history[0].generation.starts_with("3 "));
    assert!(req.history[1].generation.starts_with("4 "));
}

#[test]
fn keeps_everything_when_it_fits() {
    let mut req = request("hi", None, vec![turn("a", "b")]);
    let llm = Backend::new("m1".to_string(), 1000);
    assert_eq!(req.trim(&llm), Ok(()));
    assert_eq!(req.history.len(), 1);
    assert_eq!(req.history[0].prompt, "a");
    assert_eq!(req.history[0].generation, "b");
    assert_eq!(req.prompt, "hi");
}

#[test]
fn turn_that_reaches_the_budget_exactly_is_kept() {
    // prompt 2 tokens + one turn of 2 + 2 tokens = 6.
    let mut req = request("hi", None, vec![turn("old", "x"), turn("a", "b")]);
    let llm = Backend::new("m1".to_string(), 6);
    assert_eq!(req.trim(&llm), Ok(()));
    assert_eq!(req.history.len(), 1);
    assert_eq!(req.history[0].prompt, "a");
}

#[test]
fn system_and_prompt_over_the_budget_leave_no_history() {
    let mut req = request(&words(10), Some("be brief"), vec![turn("a", "b")]);
    let llm = Backend::new("m1".to_string(), 5);
    assert_eq!(req.trim(&llm), Ok(()));
    assert!(req.history.is_empty());
    assert_eq!(req.system.as_deref(), Some("be brief"));
}

#[test]
fn prompt_over_its_limit_fails_even_with_room() {
    let mut req = request(&words(10), None, vec![]);
    let llm = Backend::new("m1".to_string(), 100_000).with_limits(0, 5);
    assert_eq!(req.trim(&llm), Err(ModelError::PromptTooLong));
}

#[test]
fn system_over_its_limit_fails_first() {
    let mut req = request(&words(10), Some(&words(10)), vec![turn("a", "b")]);
    let llm = Backend::new("m1".to_string(), 100_000).with_limits(5, 5);
    assert_eq!(req.trim(&llm), Err(ModelError::SystemTooLong));
    assert_eq!(req.history.len(), 1);
}

#[test]
fn long_historical_prompt_reports_remaining_turns() {
    let history = vec![turn("a", "b"), turn(&words(10), "c"), turn("d", "e")];
    let mut req = request("hi", None, history);
    let llm = Backend::new("m1".to_string(), 100_000).with_limits(0, 5);
    assert_eq!(req.trim(&llm), Err(ModelError::HistoryPromptTooLong(2)));
    assert_eq!(req.history.len(), 3);
}

#[test]
fn long_prompt_past_the_first_dropped_turn_is_not_examined() {
    // The newest turn fits, the next one overflows and is the last examined;
    // the oldest, with a long prompt, is never looked at.
    let history = vec![turn(&words(10), "x"), turn("a", &words(20)), turn("b", "c")];
    let mut req = request("hi", None, history);
    let llm = Backend::new("m1".to_string(), 10).with_limits(0, 5);
    assert_eq!(req.trim(&llm), Ok(()));
    assert_eq!(req.history.len(), 1);
    assert_eq!(req.history[0].prompt, "b");
}

#[test]
fn long_prompt_in_the_first_dropped_turn_fails() {
    let history = vec![turn(&words(10), "x"), turn("b", "c")];
    let mut req = request("hi", None, history);
    let llm = Backend::new("m1".to_string(), 7).with_limits(0, 5);
    assert_eq!(req.trim(&llm), Err(ModelError::HistoryPromptTooLong(1)));
}

#[test]
fn trimmed_request_fits_the_window() {
    let history: Vec<History> = (0..8).map(|i| turn(&words(i + 1), &words(2 * i + 3))).collect();
    let mut req = request(&words(4), Some("be brief"), history);
    let llm = Backend::new("m1".to_string(), 80).with_limits(0, 20);
    assert_eq!(req.trim(&llm), Ok(()));
    let mut total = estimate_tokens("be brief") + estimate_tokens(&words(4));
    for h in &req.history {
        total += estimate_tokens(&h.prompt) + estimate_tokens(&h.generation);
        assert!(estimate_tokens(&h.prompt) <= 20);
    }
    assert!(total <= 80);
    assert_eq!(req.history.len(), 2);
    // One more (older) turn would not have fit.
    let dropped = 8 - req.history.len();
    assert!(dropped > 0);
    let older = turn(&words(dropped), &words(2 * (dropped - 1) + 3));
    assert!(total + estimate_tokens(&older.prompt) + estimate_tokens(&older.generation) > 80);
}
