//! The model registry and the orchestration of one chat call.
//!
//! A call is a small state machine: the caller performs each `Action` it is
//! handed (read the cache, invoke a backend, write the cache, reply) and
//! reports what came of it as an `Event`. Cache failures are reported as an
//! absent record or a finished write, so they never reach the reply.

use vstd::prelude::*;
use crate::errors::ModelError;
use crate::llm::{Backend, ChatLlm};
use crate::record::{
    decode_outcome, encode_outcome, outcome_record, outcome_view, record_denotes, OutcomeView,
};
use crate::request::{ChatRequest, ChatResponse, History, ModelsResponse};
use crate::trim::trim_outcome;

verus! {

/// Registered backends, looked up by exact name. A name appears at most once.
pub struct ChatModels {
    models: Vec<Backend>,
}

impl View for ChatModels {
    type V = Seq<Backend>;

    /// The registered backends, in registration order.
    closed spec fn view(&self) -> Seq<Backend> {
        self.models@
    }
}

/// How long a stored outcome is kept, in seconds: one hour.
pub const CACHE_RETENTION_SECONDS: u64 = 3600;

/// The first index in `from ..` of a backend named `name`.
pub open spec fn find_from(models: Seq<Backend>, name: Seq<char>, from: int) -> Option<int>
    decreases models.len() - from,
{
    if from < 0 || from >= models.len() {
        None
    } else if models[from].name@ == name {
        Some(from)
    } else {
        find_from(models, name, from + 1)
    }
}

/// The index of the backend named `name`, if one is registered.
pub open spec fn find_model(models: Seq<Backend>, name: Seq<char>) -> Option<int> {
    find_from(models, name, 0)
}

/// What a call does once the cache has nothing for it: `Ok((i, k))` sends the
/// request to backend `i` with its `k` most recent turns; `Err(e)` ends it
/// with `e` and no backend call.
pub open spec fn dispatch_plan(models: Seq<Backend>, req: ChatRequest) -> Result<(int, nat), ModelError> {
    match find_model(models, req.model@) {
        None => Err(ModelError::ModelNotFound),
        Some(i) => match trim_outcome(&models[i], req) {
            Ok(k) => Ok((i, k)),
            Err(e) => Err(e),
        },
    }
}

/// Names are unique in the registry.
pub open spec fn names_unique(models: Seq<Backend>) -> bool {
    forall|i: int, j: int|
        0 <= i < j < models.len() ==> #[trigger] models[i].name@ != #[trigger] models[j].name@
}

/// Where a call stands.
#[derive(Debug, Clone, Copy, PartialEq, Eq, Structural)]
pub enum Phase {
    /// Waiting for the cached record of the request id.
    AwaitCache,
    /// Waiting for the backend's generation.
    AwaitBackend,
    /// Waiting for the outcome to be written to the cache.
    AwaitStore,
    /// The reply has been handed out.
    Done,
}

/// What the caller must do next.
#[derive(Debug)]
pub enum Action {
    /// Read the record stored under `key`.
    LookupCache { key: String },
    /// Invoke backend `model` of the registry once.
    Generate { model: usize, prompt: String, system: Option<String>, history: Vec<History> },
    /// Write `record` under `key`, to expire after `ttl_seconds`.
    StoreCache { key: String, record: String, ttl_seconds: u64 },
    /// Reply with this outcome.
    Respond(Result<ChatResponse, ModelError>),
}

/// What came of the last action.
#[derive(Debug)]
pub enum Event {
    /// The record read from the cache; `None` when there was none or the
    /// cache could not be read.
    CacheRecord(Option<String>),
    /// What the backend returned.
    Generated(Result<String, ModelError>),
    /// The cache write finished, whether or not it succeeded.
    Stored,
}

/// One chat call in progress.
#[derive(Debug)]
pub struct ChatSession {
    pub uuid: String,
    pub use_cache: bool,
    pub phase: Phase,
    /// The request, until it has been dispatched.
    pub pending: Option<ChatRequest>,
    /// The outcome, while it is being written to the cache.
    pub outcome: Option<Result<ChatResponse, ModelError>>,
}

impl ChatSession {
    pub open spec fn wf(&self) -> bool {
        match self.phase {
            Phase::AwaitCache => {
                &&& self.use_cache
                &&& self.pending matches Some(req)
                &&& req.uuid@ == self.uuid@
            },
            Phase::AwaitStore => self.use_cache && self.outcome is Some,
            _ => true,
        }
    }

    /// Whether `e` is the event this session waits for.
    pub open spec fn expects(&self, e: &Event) -> bool {
        match self.phase {
            Phase::AwaitCache => e is CacheRecord,
            Phase::AwaitBackend => e is Generated,
            Phase::AwaitStore => e is Stored,
            Phase::Done => false,
        }
    }

    /// Whether `e` is the event this session waits for.
    pub fn accepts(&self, e: &Event) -> (r: bool)
        ensures
            r == self.expects(e),
    {
        match self.phase {
            Phase::AwaitCache => matches!(e, Event::CacheRecord(_)),
            Phase::AwaitBackend => matches!(e, Event::Generated(_)),
            Phase::AwaitStore => matches!(e, Event::Stored),
            Phase::Done => false,
        }
    }
}

/// Whether `o` answers the request with id `uuid`: a success carries it.
pub open spec fn answers(o: Result<ChatResponse, ModelError>, uuid: Seq<char>) -> bool {
    o matches Ok(c) ==> c.uuid@ == uuid
}

/// The call reaches outcome `ov`: with a cache the outcome is written first,
/// as a record that reads back as `ov`; without one it is the reply.
pub open spec fn settles(before: ChatSession, after: ChatSession, a: Action, ov: OutcomeView) -> bool {
    &&& after.uuid == before.uuid
    &&& after.use_cache == before.use_cache
    &&& after.pending is None
    &&& if before.use_cache {
        &&& after.phase == Phase::AwaitStore
        &&& after.outcome matches Some(o)
        &&& outcome_view(o) == ov
        &&& answers(o, before.uuid@)
        &&& a matches Action::StoreCache { key, record, ttl_seconds }
        &&& key@ == before.uuid@
        &&& ttl_seconds == CACHE_RETENTION_SECONDS
        &&& record@ == outcome_record(ov)
        &&& record_denotes(record@, ov)
    } else {
        &&& after.phase == Phase::Done
        &&& after.outcome is None
        &&& a matches Action::Respond(o)
        &&& outcome_view(o) == ov
        &&& answers(o, before.uuid@)
    }
}

/// The call goes to the backend of plan `(i, k)`.
pub open spec fn dispatches(before: ChatSession, after: ChatSession, a: Action, req: ChatRequest, i: int, k: nat) -> bool {
    &&& after.uuid == before.uuid
    &&& after.use_cache == before.use_cache
    &&& after.phase == Phase::AwaitBackend
    &&& after.pending is None
    &&& after.outcome is None
    &&& a matches Action::Generate { model, prompt, system, history }
    &&& model == i
    &&& prompt == req.prompt
    &&& system == req.system
    &&& history@ == req.history@.subrange(req.history@.len() - k, req.history@.len() as int)
}

/// What a call does after the cache had nothing for `req`.
pub open spec fn proceeds(models: Seq<Backend>, before: ChatSession, after: ChatSession, a: Action, req: ChatRequest) -> bool {
    match dispatch_plan(models, req) {
        Ok((i, k)) => dispatches(before, after, a, req, i, k),
        Err(e) => settles(before, after, a, Err(e@)),
    }
}

/// The outcome that a backend result stands for.
pub open spec fn generated_view(res: Result<String, ModelError>) -> OutcomeView {
    match res {
        Ok(g) => Ok(g@),
        Err(e) => Err(e@),
    }
}

fn copy_outcome(o: &Result<ChatResponse, ModelError>) -> (r: Result<ChatResponse, ModelError>)
    ensures
        r == *o,
{
    match o {
        Ok(c) => Ok(c.duplicate()),
        Err(e) => Err(e.duplicate()),
    }
}

impl ChatModels {
    #[verifier::type_invariant]
    spec fn inv(&self) -> bool {
        names_unique(self.models@)
    }

    /// An empty registry.
    pub fn new() -> (r: ChatModels)
        ensures
            r@.len() == 0,
    {
        ChatModels { models: Vec::new() }
    }

    /// Registers `model` under its name, replacing a backend of the same name.
    pub fn register(&mut self, model: Backend)
        ensures
            match find_model(old(self)@, model.name@) {
                Some(i) => final(self)@ == old(self)@.update(i, model),
                None => final(self)@ == old(self)@.push(model),
            },
    {
        let ghost name = model.name@;
        proof {
            use_type_invariant(&*self);
        }
        let found = self.lookup(model.name.as_str());
        let mut models: Vec<Backend> = Vec::new();
        core::mem::swap(&mut models, &mut self.models);
        match found {
            Some(i) => {
                proof {
                    lemma_find_from_found(models@, name, 0);
                }
                let ghost before = models@;
                models.set(i, model);
                assert forall|a: int, b: int|
                    0 <= a < b < models@.len() implies #[trigger] models@[a].name@
                    != #[trigger] models@[b].name@ by {
                    assert(before[i as int].name@ == name);
                }
            },
            None => {
                proof {
                    lemma_find_from_absent(models@, name, 0);
                }
                models.push(model);
            },
        }
        self.models = models;
    }

    /// The index of the backend named `name`, if one is registered.
    pub fn lookup(&self, name: &str) -> (r: Option<usize>)
        ensures
            r matches Some(i) ==> find_model(self@, name@) == Some(i as int) && i < self@.len(),
            r is None ==> find_model(self@, name@) is None,
    {
        let n = self.models.len();
        let mut i: usize = 0;
        while i < n
            invariant
                n == self.models@.len(),
                i <= n,
                find_model(self.models@, name@) == find_from(self.models@, name@, i as int),
            decreases n - i,
        {
            if same_name(&self.models[i].name, name) {
                return Some(i);
            }
            i = i + 1;
        }
        None
    }

    /// Number of registered backends.
    pub fn len(&self) -> (r: usize)
        ensures
            r == self@.len(),
    {
        self.models.len()
    }

    /// The backend at position `i` of the registry.
    pub fn get(&self, i: usize) -> (r: &Backend)
        requires
            i < self@.len(),
        ensures
            *r == self@[i as int],
    {
        &self.models[i]
    }

    /// The names of the registered models, in registration order; no name
    /// appears twice.
    pub fn models(&self) -> (r: ModelsResponse)
        ensures
            r.models@.len() == self@.len(),
            forall|i: int| 0 <= i < r.models@.len() ==> #[trigger] r.models@[i]@ == self@[i].name@,
            forall|i: int, j: int|
                0 <= i < j < r.models@.len() ==> #[trigger] r.models@[i]@ != #[trigger] r.models@[j]@,
    {
        proof {
            use_type_invariant(self);
        }
        let mut names: Vec<String> = Vec::new();
        let n = self.models.len();
        let mut i: usize = 0;
        while i < n
            invariant
                n == self.models@.len(),
                i <= n,
                names@.len() == i,
                forall|j: int| 0 <= j < i ==> #[trigger] names@[j]@ == self.models@[j].name@,
            decreases n - i,
        {
            names.push(self.models[i].name.clone());
            i = i + 1;
        }
        ModelsResponse { models: names }
    }

    /// Ends the call with outcome `o`: through the cache when there is one.
    fn settle(session: &mut ChatSession, o: Result<ChatResponse, ModelError>) -> (a: Action)
        requires
            answers(o, old(session).uuid@),
        ensures
            settles(*old(session), *final(session), a, outcome_view(o)),
    {
        session.pending = None;
        if session.use_cache {
            let record = encode_outcome(&o);
            session.outcome = Some(o);
            session.phase = Phase::AwaitStore;
            Action::StoreCache {
                key: session.uuid.clone(),
                record,
                ttl_seconds: CACHE_RETENTION_SECONDS,
            }
        } else {
            session.outcome = None;
            session.phase = Phase::Done;
            Action::Respond(o)
        }
    }

    /// Looks up the model and trims the request for it; then either hands the
    /// request to that backend or ends the call.
    fn dispatch(&self, session: &mut ChatSession, req: ChatRequest) -> (a: Action)
        requires
            req.uuid@ == old(session).uuid@,
        ensures
            proceeds(self@, *old(session), *final(session), a, req),
    {
        let mut req = req;
        match self.lookup(req.model.as_str()) {
            None => Self::settle(session, Err(ModelError::ModelNotFound)),
            Some(i) => match req.trim(&self.models[i]) {
                Err(e) => Self::settle(session, Err(e)),
                Ok(()) => {
                    session.pending = None;
                    session.outcome = None;
                    session.phase = Phase::AwaitBackend;
                    Action::Generate {
                        model: i,
                        prompt: req.prompt,
                        system: req.system,
                        history: req.history,
                    }
                },
            },
        }
    }

    /// Starts a call for `request`; `use_cache` says whether a cache is
    /// configured.
    pub fn begin(&self, request: ChatRequest, use_cache: bool) -> (r: (ChatSession, Action))
        ensures
            r.0.wf(),
            r.0.uuid@ == request.uuid@,
            r.0.use_cache == use_cache,
            use_cache ==> {
                &&& r.0.phase == Phase::AwaitCache
                &&& r.0.pending == Some(request)
                &&& r.1 matches Action::LookupCache { key }
                &&& key@ == request.uuid@
            },
            !use_cache ==> proceeds(
                self@,
                ChatSession {
                    uuid: r.0.uuid,
                    use_cache,
                    phase: Phase::AwaitCache,
                    pending: None,
                    outcome: None,
                },
                r.0,
                r.1,
                request,
            ),
    {
        let uuid = request.uuid.clone();
        if use_cache {
            let key = request.uuid.clone();
            let session = ChatSession {
                uuid,
                use_cache,
                phase: Phase::AwaitCache,
                pending: Some(request),
                outcome: None,
            };
            (session, Action::LookupCache { key })
        } else {
            let mut session = ChatSession {
                uuid,
                use_cache,
                phase: Phase::AwaitCache,
                pending: None,
                outcome: None,
            };
            let ghost start = session;
            let a = self.dispatch(&mut session, request);
            assert(start.uuid == session.uuid);
            (session, a)
        }
    }

    /// Advances `session` by what came of its last action.
    ///
    /// A record that reads as an outcome is replayed as the reply with no
    /// backend call; an absent or unreadable record is a miss. A backend
    /// result becomes the outcome, which is written to the cache when there
    /// is one and then handed out whatever became of the write.
    pub fn advance(&self, session: &mut ChatSession, event: Event) -> (a: Action)
        requires
            old(session).wf(),
            old(session).expects(&event),
        ensures
            final(session).wf(),
            match (old(session).phase, event) {
                (Phase::AwaitCache, Event::CacheRecord(rec)) => {
                    let req = old(session).pending->Some_0;
                    match rec {
                        Some(s) => if exists|o: OutcomeView| record_denotes(s@, o) {
                            &&& final(session).phase == Phase::Done
                            &&& a matches Action::Respond(o)
                            &&& record_denotes(s@, outcome_view(o))
                            &&& answers(o, old(session).uuid@)
                        } else {
                            proceeds(self@, *old(session), *final(session), a, req)
                        },
                        None => proceeds(self@, *old(session), *final(session), a, req),
                    }
                },
                (Phase::AwaitBackend, Event::Generated(res)) => settles(
                    *old(session),
                    *final(session),
                    a,
                    generated_view(res),
                ),
                (Phase::AwaitStore, Event::Stored) => {
                    &&& final(session).phase == Phase::Done
                    &&& final(session).outcome is None
                    &&& a == Action::Respond(old(session).outcome->Some_0)
                },
                _ => false,
            },
    {
        match event {
            Event::CacheRecord(rec) => {
                let req = session.pending.take().unwrap();
                match rec {
                    Some(s) => match decode_outcome(s.as_str(), session.uuid.as_str()) {
                        Some(o) => {
                            session.phase = Phase::Done;
                            Action::Respond(o)
                        },
                        None => self.dispatch(session, req),
                    },
                    None => self.dispatch(session, req),
                }
            },
            Event::Generated(res) => {
                let o = match res {
                    Ok(generation) => Ok(ChatResponse { generation, uuid: session.uuid.clone() }),
                    Err(e) => Err(e),
                };
                Self::settle(session, o)
            },
            Event::Stored => {
                let o = session.outcome.take().unwrap();
                session.phase = Phase::Done;
                Action::Respond(o)
            },
        }
    }
}

/// The record a call writes when it settles with a cache is a hit for any
/// later call with the same request id: that call replies with the same
/// outcome and invokes no backend.
pub proof fn lemma_idempotent_replay(
    before: ChatSession,
    after: ChatSession,
    store: Action,
    stored: OutcomeView,
    replied: Result<ChatResponse, ModelError>,
)
    requires
        before.use_cache,
        settles(before, after, store, stored),
        record_denotes(store->StoreCache_record@, outcome_view(replied)),
    ensures
        store->StoreCache_key@ == before.uuid@,
        exists|o: OutcomeView| record_denotes(store->StoreCache_record@, o),
        outcome_view(replied) == stored,
{
    crate::record::lemma_record_denotes_unique(
        store->StoreCache_record@,
        stored,
        outcome_view(replied),
    );
}

/// A cache that cannot be read changes nothing but the write that follows:
/// after a failed lookup the call goes to the same backend with the same
/// trimmed request as a call without a cache, or ends with the same outcome,
/// which it then writes before replying.
pub proof fn lemma_cache_failure_degrades(
    models: Seq<Backend>,
    req: ChatRequest,
    cached_before: ChatSession,
    cached_after: ChatSession,
    cached_action: Action,
    plain_before: ChatSession,
    plain_after: ChatSession,
    plain_action: Action,
)
    requires
        cached_before.use_cache,
        !plain_before.use_cache,
        cached_before.uuid@ == plain_before.uuid@,
        proceeds(models, cached_before, cached_after, cached_action, req),
        proceeds(models, plain_before, plain_after, plain_action, req),
    ensures
        plain_action is Generate <==> cached_action is Generate,
        plain_action matches Action::Generate { model, prompt, system, history } ==> {
            &&& cached_action matches Action::Generate { model: m2, prompt: p2, system: s2, history: h2 }
            &&& model == m2
            &&& prompt == p2
            &&& system == s2
            &&& history@ == h2@
        },
        plain_action matches Action::Respond(o) ==> {
            &&& cached_action matches Action::StoreCache { key, record, ttl_seconds }
            &&& key@ == cached_before.uuid@
            &&& ttl_seconds == CACHE_RETENTION_SECONDS
            &&& record_denotes(record@, outcome_view(o))
            &&& cached_after.outcome matches Some(c)
            &&& outcome_view(c) == outcome_view(o)
        },
{
}

/// A model name with no registered backend ends the call with
/// `ModelNotFound`, before any trimming or backend call.
pub proof fn lemma_unregistered_model(models: Seq<Backend>, req: ChatRequest)
    requires
        forall|i: int| 0 <= i < models.len() ==> #[trigger] models[i].name@ != req.model@,
    ensures
        dispatch_plan(models, req) == Err::<(int, nat), ModelError>(ModelError::ModelNotFound),
{
    lemma_find_from_none(models, req.model@, 0);
}

pub proof fn lemma_find_from_none(models: Seq<Backend>, name: Seq<char>, from: int)
    requires
        forall|i: int| 0 <= i < models.len() ==> #[trigger] models[i].name@ != name,
    ensures
        find_from(models, name, from) is None,
    decreases models.len() - from,
{
    if 0 <= from < models.len() {
        lemma_find_from_none(models, name, from + 1);
    }
}

/// Whether a registered name equals `name`.
fn same_name(a: &String, name: &str) -> (r: bool)
    ensures
        r == (a@ == name@),
{
    let b = String::from_str(name);
    *a == b
}

pub proof fn lemma_find_from_found(models: Seq<Backend>, name: Seq<char>, from: int)
    requires
        find_from(models, name, from) matches Some(i),
    ensures
        find_from(models, name, from) matches Some(i) && 0 <= from <= i < models.len()
            && models[i].name@ == name,
    decreases models.len() - from,
{
    if from >= 0 && from < models.len() && models[from].name@ != name {
        lemma_find_from_found(models, name, from + 1);
    }
}

pub proof fn lemma_find_from_absent(models: Seq<Backend>, name: Seq<char>, from: int)
    requires
        0 <= from,
        find_from(models, name, from) is None,
    ensures
        forall|j: int| from <= j < models.len() ==> #[trigger] models[j].name@ != name,
    decreases models.len() - from,
{
    if from < models.len() {
        lemma_find_from_absent(models, name, from + 1);
    }
}

} // verus!
