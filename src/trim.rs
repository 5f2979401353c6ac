//! Fitting a request into a backend's context window: per-field limits are
//! checked, then the most recent turns of the history are kept while their
//! cost fits, and the older ones are dropped.

use vstd::prelude::*;
use crate::errors::ModelError;
use crate::llm::ChatLlm;
use crate::request::{ChatRequest, History};

verus! {

/// Sum of a sequence of token counts.
pub open spec fn seq_sum(s: Seq<nat>) -> nat
    decreases s.len(),
{
    if s.len() == 0 {
        0
    } else {
        s[0] + seq_sum(s.drop_first())
    }
}

/// Sum of the last `k` entries of `costs`.
pub open spec fn suffix_cost(costs: Seq<nat>, k: nat) -> nat
    recommends
        k <= costs.len(),
{
    seq_sum(costs.subrange(costs.len() - k, costs.len() as int))
}

/// Walking from the `k` most recent turns, how many turns are kept: a turn
/// is kept while `base` plus the cost of it and of every later turn stays
/// within `budget`.
pub open spec fn kept_from(costs: Seq<nat>, base: nat, budget: nat, k: nat) -> nat
    decreases costs.len() - k,
{
    if k < costs.len() && base + suffix_cost(costs, k + 1) <= budget {
        kept_from(costs, base, budget, k + 1)
    } else {
        k
    }
}

/// Number of most recent turns that are kept.
pub open spec fn kept_turns(costs: Seq<nat>, base: nat, budget: nat) -> nat {
    kept_from(costs, base, budget, 0)
}

/// The most recent index in `lo .. i` whose prompt is over a nonzero `limit`.
pub open spec fn long_prompt_below(prompts: Seq<nat>, limit: nat, lo: int, i: int) -> Option<int>
    decreases i - lo,
{
    if i <= lo {
        None
    } else if limit > 0 && prompts[i - 1] > limit {
        Some(i - 1)
    } else {
        long_prompt_below(prompts, limit, lo, i - 1)
    }
}

/// The outcome of trimming, over token counts: `sys` and `prm` for the system
/// text and prompt, `costs[i]` for prompt plus generation of turn `i` and
/// `prompts[i]` for its prompt alone. `Ok(k)` keeps the `k` most recent turns.
/// The turns examined are the kept ones and the first dropped one.
pub open spec fn trim_counts(
    sys: nat,
    prm: nat,
    costs: Seq<nat>,
    prompts: Seq<nat>,
    system_limit: nat,
    prompt_limit: nat,
    budget: nat,
) -> Result<nat, ModelError> {
    if system_limit > 0 && sys > system_limit {
        Err(ModelError::SystemTooLong)
    } else if prompt_limit > 0 && prm > prompt_limit {
        Err(ModelError::PromptTooLong)
    } else {
        let n = costs.len();
        let k = kept_turns(costs, sys + prm, budget);
        let lo = if k < n {
            n - k - 1
        } else {
            0
        };
        match long_prompt_below(prompts, prompt_limit, lo, n as int) {
            Some(i) => Err(ModelError::HistoryPromptTooLong((i + 1) as u64)),
            None => Ok(k),
        }
    }
}

/// Token count of the system text, 0 when there is none.
pub open spec fn system_token_count<L: ChatLlm>(llm: &L, system: Option<String>) -> nat {
    match system {
        Some(s) => llm.tokens_of(s@),
        None => 0,
    }
}

/// Cost of a turn: the tokens of its prompt and of its generation.
pub open spec fn turn_cost<L: ChatLlm>(llm: &L, h: History) -> nat {
    llm.tokens_of(h.prompt@) + llm.tokens_of(h.generation@)
}

pub open spec fn turn_costs<L: ChatLlm>(llm: &L, history: Seq<History>) -> Seq<nat> {
    Seq::new(history.len(), |i: int| turn_cost(llm, history[i]))
}

pub open spec fn turn_prompts<L: ChatLlm>(llm: &L, history: Seq<History>) -> Seq<nat> {
    Seq::new(history.len(), |i: int| llm.tokens_of(history[i].prompt@))
}

/// The outcome of trimming `req` for `llm`.
pub open spec fn trim_outcome<L: ChatLlm>(llm: &L, req: ChatRequest) -> Result<nat, ModelError> {
    trim_counts(
        system_token_count(llm, req.system),
        llm.tokens_of(req.prompt@),
        turn_costs(llm, req.history@),
        turn_prompts(llm, req.history@),
        llm.system_cap(),
        llm.prompt_cap(),
        llm.context_budget(),
    )
}

impl ChatRequest {
    /// Drops the oldest turns of the history that do not fit `llm`'s context
    /// window, after checking the per-field limits. On success the history is
    /// the longest run of most recent turns that fits, oldest first; on
    /// failure the request is left as it was.
    pub fn trim<L: ChatLlm>(&mut self, llm: &L) -> (r: Result<(), ModelError>)
        ensures
            match trim_outcome(llm, *old(self)) {
                Ok(k) => {
                    &&& r is Ok
                    &&& final(self).history@ == old(self).history@.subrange(
                        old(self).history@.len() - k,
                        old(self).history@.len() as int,
                    )
                    &&& final(self).uuid == old(self).uuid
                    &&& final(self).model == old(self).model
                    &&& final(self).system == old(self).system
                    &&& final(self).prompt == old(self).prompt
                },
                Err(e) => r == Err::<(), ModelError>(e) && *final(self) == *old(self),
            },
    {
        let ghost costs = turn_costs(llm, self.history@);
        let ghost prompts = turn_prompts(llm, self.history@);
        let system_tokens: usize = match &self.system {
            Some(s) => llm.count_tokens(s.as_str()),
            None => 0,
        };
        let prompt_tokens = llm.count_tokens(self.prompt.as_str());
        let system_limit = llm.system_limit();
        let prompt_limit = llm.prompt_limit();
        let budget = llm.context_size();
        if 0 < system_limit && system_limit < system_tokens {
            return Err(ModelError::SystemTooLong);
        }
        if 0 < prompt_limit && prompt_limit < prompt_tokens {
            return Err(ModelError::PromptTooLong);
        }
        let ghost base: nat = (system_tokens + prompt_tokens) as nat;
        let ghost k = kept_turns(costs, base, budget as nat);
        let n = self.history.len();
        let ghost lo: int = if k < n {
            n - k - 1
        } else {
            0
        };
        let mut total: u128 = system_tokens as u128 + prompt_tokens as u128;
        let mut i: usize = n;
        let mut fits: bool = true;
        while i > 0 && fits
            invariant
                *self == *old(self),
                system_tokens == system_token_count(llm, self.system),
                prompt_tokens == llm.tokens_of(self.prompt@),
                system_limit == llm.system_cap(),
                !(0 < system_limit && system_limit < system_tokens),
                !(0 < prompt_limit && prompt_limit < prompt_tokens),
                base == system_tokens + prompt_tokens,
                k == kept_turns(costs, base, budget as nat),
                n == self.history@.len(),
                costs == turn_costs(llm, self.history@),
                prompts == turn_prompts(llm, self.history@),
                prompt_limit == llm.prompt_cap(),
                budget == llm.context_budget(),
                i <= n,
                fits ==> kept_from(costs, base, budget as nat, (n - i) as nat) == k,
                !fits ==> k == n - i && i >= 1 && lo == i - 1,
                lo == (if k < n {
                    n - k - 1
                } else {
                    0int
                }),
                lo <= i,
                fits ==> total == base + suffix_cost(costs, (n - i) as nat),
                fits ==> (n - i == 0 || total <= budget),
                base <= 2 * (usize::MAX as nat),
                long_prompt_below(prompts, prompt_limit as nat, lo, n as int)
                    == long_prompt_below(prompts, prompt_limit as nat, lo, i as int),
                !fits ==> long_prompt_below(prompts, prompt_limit as nat, lo, i as int) is None,
            decreases i + if fits {
                1int
            } else {
                0int
            },
        {
            let h = &self.history[i - 1];
            let historical_prompt_tokens = llm.count_tokens(h.prompt.as_str());
            let generation_tokens = llm.count_tokens(h.generation.as_str());
            proof {
                lemma_kept_from_at_least(costs, base, budget as nat, (n - i) as nat);
                assert(k >= n - i);
                assert(lo <= i - 1);
            }
            assert(prompts[i - 1] == historical_prompt_tokens);
            if 0 < prompt_limit && prompt_limit < historical_prompt_tokens {
                return Err(ModelError::HistoryPromptTooLong(i as u64));
            }
            assert(costs[i - 1] == historical_prompt_tokens + generation_tokens);
            assert(costs.len() - (n - i + 1) == i - 1);
            proof {
                lemma_suffix_step(costs, (n - i) as nat);
            }
            total = total + historical_prompt_tokens as u128 + generation_tokens as u128;
            if (budget as u128) < total {
                fits = false;
                assert(long_prompt_below(prompts, prompt_limit as nat, lo, lo) is None);
            } else {
                i = i - 1;
            }
        }
        if fits {
            assert(k == n);
        }
        let recent = self.history.split_off(i);
        self.history = recent;
        Ok(())
    }
}

/// One more turn adds its cost to the suffix.
pub proof fn lemma_suffix_step(costs: Seq<nat>, m: nat)
    requires
        m < costs.len(),
    ensures
        suffix_cost(costs, m + 1) == costs[costs.len() - m - 1] + suffix_cost(costs, m),
{
    let n = costs.len();
    let longer = costs.subrange(n - m - 1, n as int);
    assert(longer.drop_first() =~= costs.subrange(n - m, n as int));
}

/// Longer suffixes cost at least as much.
pub proof fn lemma_suffix_monotone(costs: Seq<nat>, a: nat, b: nat)
    requires
        a <= b <= costs.len(),
    ensures
        suffix_cost(costs, a) <= suffix_cost(costs, b),
    decreases b - a,
{
    if a < b {
        lemma_suffix_step(costs, (b - 1) as nat);
        lemma_suffix_monotone(costs, a, (b - 1) as nat);
    }
}

/// The walk stops at a count whose suffix fits, and the next longer suffix,
/// if any, does not.
pub proof fn lemma_kept_from_stops(costs: Seq<nat>, base: nat, budget: nat, k: nat)
    requires
        k <= costs.len(),
        k == 0 || base + suffix_cost(costs, k) <= budget,
    ensures
        ({
            let r = kept_from(costs, base, budget, k);
            &&& k <= r <= costs.len()
            &&& (r == 0 || base + suffix_cost(costs, r) <= budget)
            &&& (r < costs.len() ==> base + suffix_cost(costs, r + 1) > budget)
        }),
    decreases costs.len() - k,
{
    if k < costs.len() && base + suffix_cost(costs, k + 1) <= budget {
        lemma_kept_from_stops(costs, base, budget, k + 1);
    }
}

/// No index in `lo .. i` is over the limit when the search finds none.
pub proof fn lemma_no_long_prompt(prompts: Seq<nat>, limit: nat, lo: int, i: int)
    requires
        long_prompt_below(prompts, limit, lo, i) is None,
    ensures
        forall|j: int| lo <= j < i ==> !(limit > 0 && #[trigger] prompts[j] > limit),
    decreases i - lo,
{
    if i > lo {
        lemma_no_long_prompt(prompts, limit, lo, i - 1);
    }
}

/// After a successful trim the request fits: when the system text and prompt
/// fit the context size on their own, they and the kept turns together fit
/// it, and no kept turn has a prompt over a nonzero prompt limit.
pub proof fn lemma_trim_fits<L: ChatLlm>(llm: &L, req: ChatRequest, k: nat)
    requires
        trim_outcome(llm, req) == Ok::<nat, ModelError>(k),
        system_token_count(llm, req.system) + llm.tokens_of(req.prompt@) <= llm.context_budget(),
    ensures
        ({
            let n = req.history@.len();
            let kept = req.history@.subrange(n - k, n as int);
            &&& k <= n
            &&& system_token_count(llm, req.system) + llm.tokens_of(req.prompt@) + seq_sum(
                turn_costs(llm, kept),
            ) <= llm.context_budget()
            &&& forall|j: int|
                0 <= j < kept.len() ==> !(llm.prompt_cap() > 0 && llm.tokens_of(
                    #[trigger] kept[j].prompt@,
                ) > llm.prompt_cap())
        }),
{
    let h = req.history@;
    let n = h.len();
    let costs = turn_costs(llm, h);
    let prompts = turn_prompts(llm, h);
    let base = system_token_count(llm, req.system) + llm.tokens_of(req.prompt@);
    let budget = llm.context_budget();
    lemma_kept_from_stops(costs, base, budget, 0);
    let lo: int = if k < n {
        n - k - 1
    } else {
        0
    };
    lemma_no_long_prompt(prompts, llm.prompt_cap(), lo, n as int);
    let kept = h.subrange(n - k, n as int);
    assert(turn_costs(llm, kept) =~= costs.subrange(n - k, n as int));
    assert forall|j: int| 0 <= j < kept.len() implies !(llm.prompt_cap() > 0 && llm.tokens_of(
        #[trigger] kept[j].prompt@,
    ) > llm.prompt_cap()) by {
        assert(kept[j] == h[n - k + j]);
        assert(prompts[n - k + j] == llm.tokens_of(h[n - k + j].prompt@));
    }
}

/// The kept turns are exactly the longest run of most recent turns whose
/// cost, added to that of the system text and prompt, fits the context size.
pub proof fn lemma_trim_keeps_longest_fitting_suffix<L: ChatLlm>(
    llm: &L,
    req: ChatRequest,
    k: nat,
)
    requires
        trim_outcome(llm, req) == Ok::<nat, ModelError>(k),
    ensures
        ({
            let costs = turn_costs(llm, req.history@);
            let base = system_token_count(llm, req.system) + llm.tokens_of(req.prompt@);
            &&& k <= costs.len()
            &&& (k == 0 || base + suffix_cost(costs, k) <= llm.context_budget())
            &&& forall|j: nat|
                k < j <= costs.len() ==> base + #[trigger] suffix_cost(costs, j)
                    > llm.context_budget()
        }),
{
    let costs = turn_costs(llm, req.history@);
    let base = system_token_count(llm, req.system) + llm.tokens_of(req.prompt@);
    let budget = llm.context_budget();
    lemma_kept_from_stops(costs, base, budget, 0);
    assert forall|j: nat| k < j <= costs.len() implies base + #[trigger] suffix_cost(costs, j)
        > budget by {
        lemma_suffix_monotone(costs, k + 1, j);
    }
}

/// A prompt over a nonzero prompt limit fails with `PromptTooLong` whatever
/// the context size, once the system text is within its own limit.
pub proof fn lemma_prompt_limit_first<L: ChatLlm>(llm: &L, req: ChatRequest)
    requires
        llm.prompt_cap() > 0,
        llm.tokens_of(req.prompt@) > llm.prompt_cap(),
        !(llm.system_cap() > 0 && system_token_count(llm, req.system) > llm.system_cap()),
    ensures
        trim_outcome(llm, req) == Err::<nat, ModelError>(ModelError::PromptTooLong),
{
}

/// A system text over a nonzero system limit fails with `SystemTooLong`.
pub proof fn lemma_system_limit_first<L: ChatLlm>(llm: &L, req: ChatRequest)
    requires
        llm.system_cap() > 0,
        system_token_count(llm, req.system) > llm.system_cap(),
    ensures
        trim_outcome(llm, req) == Err::<nat, ModelError>(ModelError::SystemTooLong),
{
}

/// Following the walk never lowers the count.
pub proof fn lemma_kept_from_at_least(costs: Seq<nat>, base: nat, budget: nat, k: nat)
    ensures
        kept_from(costs, base, budget, k) >= k,
        k <= costs.len() ==> kept_from(costs, base, budget, k) <= costs.len(),
    decreases costs.len() - k,
{
    if k < costs.len() && base + suffix_cost(costs, k + 1) <= budget {
        lemma_kept_from_at_least(costs, base, budget, k + 1);
    }
}

} // verus!
