//! Stored outcomes of chat calls. A success is `OK:` followed by the
//! generation; a failure is `ERR:` followed by the error as JSON, a quoted
//! kind name for kinds without data and `{"<kind>":<data>}` for the others.

use vstd::prelude::*;
use crate::decimal::{decimal, digits_of, parse_decimal, lemma_value_of_digits};
use crate::errors::{ErrorView, ModelError};
use crate::request::ChatResponse;
use crate::text::{concat3, has_prefix, same_text, starts_with};

verus! {

/// The JSON string literal that serde_json writes for a string.
pub uninterp spec fn json_quoted(s: Seq<char>) -> Seq<char>;

/// The string that serde_json reads from a JSON string literal, if it is one.
pub uninterp spec fn json_unquoted(t: Seq<char>) -> Option<Seq<char>>;

/// Relies on serde_json::to_string on a `str`: it writes the JSON string
/// literal of `s` (it cannot fail on a string), which serde_json::from_str
/// reads back as `s`.
#[verifier::external_body]
fn json_quote(s: &str) -> (r: String)
    ensures
        r@ == json_quoted(s@),
        json_unquoted(r@) == Some(s@),
{
    serde_json::to_string(s).unwrap_or_default()
}

/// Relies on serde_json::from_str::<String>: the string that the JSON string
/// literal `t` denotes, or none when `t` is not one.
#[verifier::external_body]
fn json_unquote(t: &str) -> (r: Option<String>)
    ensures
        match r {
            Some(v) => json_unquoted(t@) == Some(v@),
            None => json_unquoted(t@) is None,
        },
{
    serde_json::from_str::<String>(t).ok()
}

pub open spec fn ok_tag() -> Seq<char> {
    seq!['O', 'K', ':']
}

pub open spec fn err_tag() -> Seq<char> {
    seq!['E', 'R', 'R', ':']
}

/// A kind without data: its name in quotes.
pub open spec fn unit_payload(name: Seq<char>) -> Seq<char> {
    seq!['"'] + name + seq!['"']
}

/// The opening of a kind with data: `{"<name>":`.
pub open spec fn tagged_head(name: Seq<char>) -> Seq<char> {
    seq!['{', '"'] + name + seq!['"', ':']
}

pub open spec fn number_payload(name: Seq<char>, n: u64) -> Seq<char> {
    tagged_head(name) + digits_of(n as nat) + seq!['}']
}

/// The payload written for an error.
pub open spec fn error_payload(e: ErrorView) -> Seq<char> {
    match e {
        ErrorView::ModelNotFound => unit_payload("ModelNotFound"@),
        ErrorView::UpstreamModelError => unit_payload("UpstreamModelError"@),
        ErrorView::HistoryPromptTooLong(n) => number_payload("HistoryPromptTooLong"@, n),
        ErrorView::RateLimitExceeded(n) => number_payload("RateLimitExceeded"@, n),
        ErrorView::PromptTooLong => unit_payload("PromptTooLong"@),
        ErrorView::SystemTooLong => unit_payload("SystemTooLong"@),
        ErrorView::Other(m) => tagged_head("Other"@) + json_quoted(m) + seq!['}'],
    }
}

/// Whether payload `p` reads as error `e`. A message may be written in any
/// JSON string literal that denotes it.
pub open spec fn error_denoted(p: Seq<char>, e: ErrorView) -> bool {
    match e {
        ErrorView::Other(m) => {
            let h = tagged_head("Other"@).len();
            &&& has_prefix(p, tagged_head("Other"@))
            &&& p.len() > h
            &&& p.last() == '}'
            &&& json_unquoted(p.subrange(h as int, p.len() - 1)) == Some(m)
        },
        _ => p == error_payload(e),
    }
}

/// What a stored outcome holds: the generation, or the error.
pub type OutcomeView = Result<Seq<char>, ErrorView>;

pub open spec fn outcome_view(o: Result<ChatResponse, ModelError>) -> OutcomeView {
    match o {
        Ok(c) => Ok(c.generation@),
        Err(e) => Err(e@),
    }
}

/// The record written for an outcome.
pub open spec fn outcome_record(o: OutcomeView) -> Seq<char> {
    match o {
        Ok(g) => ok_tag() + g,
        Err(e) => err_tag() + error_payload(e),
    }
}

/// Whether record `rec` reads as outcome `o`.
pub open spec fn record_denotes(rec: Seq<char>, o: OutcomeView) -> bool {
    match o {
        Ok(g) => rec == ok_tag() + g,
        Err(e) => has_prefix(rec, err_tag()) && error_denoted(rec.subrange(4, rec.len() as int), e),
    }
}

/// A payload reads as at most one error.
pub proof fn lemma_error_denoted_unique(p: Seq<char>, a: ErrorView, b: ErrorView)
    requires
        error_denoted(p, a),
        error_denoted(p, b),
    ensures
        a == b,
{
    reveal_strlit("ModelNotFound");
    reveal_strlit("UpstreamModelError");
    reveal_strlit("HistoryPromptTooLong");
    reveal_strlit("RateLimitExceeded");
    reveal_strlit("PromptTooLong");
    reveal_strlit("SystemTooLong");
    reveal_strlit("Other");
    match (a, b) {
        (ErrorView::Other(_), ErrorView::Other(_)) => {},
        (ErrorView::Other(_), _) => {
            assert(p.subrange(0, 9)[2] == p[2]);
            assert(p[0] == error_payload(b)[0]);
            assert(p[2] == error_payload(b)[2]);
        },
        (_, ErrorView::Other(_)) => {
            assert(p.subrange(0, 9)[2] == p[2]);
            assert(p[0] == error_payload(a)[0]);
            assert(p[2] == error_payload(a)[2]);
        },
        _ => {
            assert(error_payload(a) == error_payload(b));
            assert(p[1] == error_payload(a)[1]);
            assert(p[2] == error_payload(a)[2]);
            assert(p[2] == error_payload(b)[2]);
            assert(p[3] == error_payload(b)[3]);
            match (a, b) {
                (ErrorView::HistoryPromptTooLong(x), ErrorView::HistoryPromptTooLong(y)) => {
                    lemma_number_payload_unique("HistoryPromptTooLong"@, x, y);
                },
                (ErrorView::RateLimitExceeded(x), ErrorView::RateLimitExceeded(y)) => {
                    lemma_number_payload_unique("RateLimitExceeded"@, x, y);
                },
                _ => {},
            }
        },
    }
}

pub proof fn lemma_number_payload_unique(name: Seq<char>, x: u64, y: u64)
    requires
        number_payload(name, x) == number_payload(name, y),
    ensures
        x == y,
{
    let h = tagged_head(name).len();
    let px = number_payload(name, x);
    let py = number_payload(name, y);
    assert(px.subrange(h as int, px.len() - 1) =~= digits_of(x as nat));
    assert(py.subrange(h as int, py.len() - 1) =~= digits_of(y as nat));
    lemma_value_of_digits(x as nat);
    lemma_value_of_digits(y as nat);
}

/// A record reads as at most one outcome.
pub proof fn lemma_record_denotes_unique(rec: Seq<char>, a: OutcomeView, b: OutcomeView)
    requires
        record_denotes(rec, a),
        record_denotes(rec, b),
    ensures
        a == b,
{
    match (a, b) {
        (Ok(x), Ok(y)) => {
            assert(x =~= rec.subrange(3, rec.len() as int));
            assert(y =~= rec.subrange(3, rec.len() as int));
        },
        (Err(x), Err(y)) => {
            lemma_error_denoted_unique(rec.subrange(4, rec.len() as int), x, y);
        },
        (Ok(x), Err(y)) => {
            assert(rec[0] == (ok_tag() + x)[0]);
            assert(rec.subrange(0, 4)[0] == rec[0]);
        },
        (Err(x), Ok(y)) => {
            assert(rec[0] == (ok_tag() + y)[0]);
            assert(rec.subrange(0, 4)[0] == rec[0]);
        },
    }
}

/// `{"<name>":` as text.
fn tagged_head_text(name: &str) -> (r: String)
    ensures
        r@ == tagged_head(name@),
{
    proof {
        reveal_strlit("{\"");
        reveal_strlit("\":");
    }
    let r = concat3("{\"", name, "\":");
    assert(r@ =~= tagged_head(name@));
    r
}

/// `"<name>"` as text.
fn unit_payload_text(name: &str) -> (r: String)
    ensures
        r@ == unit_payload(name@),
{
    proof {
        reveal_strlit("\"");
    }
    let r = concat3("\"", name, "\"");
    assert(r@ =~= unit_payload(name@));
    r
}

/// The number in `{"<name>":<n>}`, when `p` has that form.
fn parse_number_payload(p: &str, name: &str) -> (r: Option<u64>)
    ensures
        match r {
            Some(n) => p@ == number_payload(name@, n),
            None => forall|n: u64| p@ != number_payload(name@, n),
        },
{
    let head = tagged_head_text(name);
    let h = head.as_str().unicode_len();
    let len = p.unicode_len();
    if !starts_with(p, head.as_str()) || len <= h || p.get_char(len - 1) != '}' {
        proof {
            assert forall|n: u64| p@ != number_payload(name@, n) by {
                let q = number_payload(name@, n);
                assert(q.subrange(0, h as int) =~= tagged_head(name@));
                lemma_value_of_digits(n as nat);
            }
        }
        return None;
    }
    let mid = p.substring_char(h, len - 1);
    match parse_decimal(mid) {
        Some(n) => {
            assert(p@ =~= tagged_head(name@) + mid@ + seq!['}']);
            Some(n)
        },
        None => {
            proof {
                assert forall|n: u64| p@ != number_payload(name@, n) by {
                    let q = number_payload(name@, n);
                    if p@ == q {
                        assert(q.subrange(h as int, q.len() - 1) =~= digits_of(n as nat));
                    }
                }
            }
            None
        },
    }
}

/// The error that payload `p` denotes, if any.
fn parse_error_payload(p: &str) -> (r: Option<ModelError>)
    ensures
        match r {
            Some(e) => error_denoted(p@, e@),
            None => forall|e: ErrorView| !error_denoted(p@, e),
        },
{
    if same_text(p, unit_payload_text("ModelNotFound").as_str()) {
        return Some(ModelError::ModelNotFound);
    }
    if same_text(p, unit_payload_text("UpstreamModelError").as_str()) {
        return Some(ModelError::UpstreamModelError);
    }
    if same_text(p, unit_payload_text("PromptTooLong").as_str()) {
        return Some(ModelError::PromptTooLong);
    }
    if same_text(p, unit_payload_text("SystemTooLong").as_str()) {
        return Some(ModelError::SystemTooLong);
    }
    if let Some(n) = parse_number_payload(p, "HistoryPromptTooLong") {
        return Some(ModelError::HistoryPromptTooLong(n));
    }
    if let Some(n) = parse_number_payload(p, "RateLimitExceeded") {
        return Some(ModelError::RateLimitExceeded(n));
    }
    let head = tagged_head_text("Other");
    let h = head.as_str().unicode_len();
    let len = p.unicode_len();
    if starts_with(p, head.as_str()) && len > h && p.get_char(len - 1) == '}' {
        let mid = p.substring_char(h, len - 1);
        if let Some(m) = json_unquote(mid) {
            return Some(ModelError::Other(m));
        }
    }
    None
}

impl ModelError {
    /// The stored record of this error: `ERR:` and its payload, which reads
    /// back as this error.
    pub fn to_redis_string(&self) -> (r: String)
        ensures
            r@ == outcome_record(Err(self@)),
            record_denotes(r@, Err(self@)),
    {
        proof {
            reveal_strlit("ERR:");
            reveal_strlit("}");
        }
        let payload: String = match self {
            ModelError::ModelNotFound => unit_payload_text("ModelNotFound"),
            ModelError::UpstreamModelError => unit_payload_text("UpstreamModelError"),
            ModelError::HistoryPromptTooLong(n) => {
                let d = decimal(*n);
                concat3(tagged_head_text("HistoryPromptTooLong").as_str(), d.as_str(), "}")
            },
            ModelError::RateLimitExceeded(n) => {
                let d = decimal(*n);
                concat3(tagged_head_text("RateLimitExceeded").as_str(), d.as_str(), "}")
            },
            ModelError::PromptTooLong => unit_payload_text("PromptTooLong"),
            ModelError::SystemTooLong => unit_payload_text("SystemTooLong"),
            ModelError::Other(m) => {
                let q = json_quote(m.as_str());
                let head = tagged_head_text("Other");
                let r = concat3(head.as_str(), q.as_str(), "}");
                proof {
                    let hl = head@.len();
                    assert(r@.subrange(0, hl as int) =~= head@);
                    assert(r@.subrange(hl as int, r@.len() - 1) =~= q@);
                }
                r
            },
        };
        assert(payload@ == error_payload(self@));
        assert(error_denoted(payload@, self@));
        let mut r = String::from_str("ERR:");
        r.append(payload.as_str());
        assert("ERR:"@ =~= err_tag());
        assert(r@.subrange(0, 4) =~= err_tag());
        assert(r@.subrange(4, r@.len() as int) =~= payload@);
        r
    }

    /// The error stored in record `s`, when `s` is an error record that
    /// reads as one.
    pub fn from_redis_string(s: &str) -> (r: Option<ModelError>)
        ensures
            match r {
                Some(e) => record_denotes(s@, Err(e@)),
                None => forall|e: ErrorView| !record_denotes(s@, Err(e)),
            },
    {
        proof {
            reveal_strlit("ERR:");
            assert("ERR:"@ =~= err_tag());
        }
        if !starts_with(s, "ERR:") {
            return None;
        }
        let len = s.unicode_len();
        let payload = s.substring_char(4, len);
        assert(s@.subrange(0, 4) =~= err_tag());
        parse_error_payload(payload)
    }
}

impl ChatResponse {
    /// The stored record of this response: `OK:` and the generation.
    pub fn to_redis_string(&self) -> (r: String)
        ensures
            r@ == ok_tag() + self.generation@,
    {
        proof {
            reveal_strlit("OK:");
        }
        let mut r = String::from_str("OK:");
        r.append(self.generation.as_str());
        assert("OK:"@ =~= ok_tag());
        r
    }

    /// The response stored in record `s`, for request `uuid`, when `s` is a
    /// success record.
    pub fn from_redis_string(s: &str, uuid: &str) -> (r: Option<ChatResponse>)
        ensures
            match r {
                Some(c) => s@ == ok_tag() + c.generation@ && c.uuid@ == uuid@,
                None => !has_prefix(s@, ok_tag()),
            },
    {
        proof {
            reveal_strlit("OK:");
            assert("OK:"@ =~= ok_tag());
        }
        if !starts_with(s, "OK:") {
            return None;
        }
        let len = s.unicode_len();
        let generation = s.substring_char(3, len);
        assert(s@.subrange(0, 3) =~= ok_tag());
        assert(s@ =~= ok_tag() + generation@);
        Some(ChatResponse { generation: String::from_str(generation), uuid: String::from_str(uuid) })
    }
}

/// The record stored for an outcome; it reads back as that outcome.
pub fn encode_outcome(o: &Result<ChatResponse, ModelError>) -> (r: String)
    ensures
        r@ == outcome_record(outcome_view(*o)),
        record_denotes(r@, outcome_view(*o)),
{
    match o {
        Ok(c) => c.to_redis_string(),
        Err(e) => e.to_redis_string(),
    }
}

/// The outcome stored in record `s` for request `uuid`, or none when `s`
/// reads as no outcome.
pub fn decode_outcome(s: &str, uuid: &str) -> (r: Option<Result<ChatResponse, ModelError>>)
    ensures
        match r {
            Some(o) => record_denotes(s@, outcome_view(o)) && (o is Ok ==> o->Ok_0.uuid@ == uuid@),
            None => forall|o: OutcomeView| !record_denotes(s@, o),
        },
{
    match ModelError::from_redis_string(s) {
        Some(e) => Some(Err(e)),
        None => match ChatResponse::from_redis_string(s, uuid) {
            Some(c) => Some(Ok(c)),
            None => {
                assert forall|o: OutcomeView| !record_denotes(s@, o) by {
                    if let Ok(g) = o {
                        if s@ == ok_tag() + g {
                            assert(s@.subrange(0, 3) =~= ok_tag());
                        }
                    }
                }
                None
            },
        },
    }
}

} // verus!
