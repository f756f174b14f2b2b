//! Workflow attempts: their records, and the process-local store that tracks them.
//! Timestamps are milliseconds since the Unix epoch.
use vstd::prelude::*;
use vstd::hash_map::StringHashMap;

use crate::model::{clone_opt, opt_view, own};
use crate::observability::{
    is_uuid_simple, is_uuid_text, new_attempt_id, new_diagnostic_id, new_request_id,
    new_trace_id, now_millis,
};

verus! {

/// High-level workflow state.
#[derive(Debug, Clone, Copy, PartialEq, Eq, Structural)]
pub enum WorkflowState {
    Requested,
    Validated,
    ContextLoaded,
    Executed,
    Persisted,
    Verified,
    Completed,
    Failed,
}

/// A single step within an attempt.
#[derive(Debug, Clone)]
pub struct WorkflowStepEvent {
    pub step_name: String,
    pub event: String,
    pub duration_ms: Option<u64>,
    pub error_code: Option<String>,
    pub message: Option<String>,
    pub at: i64,
}

/// Durable attempt record returned to clients.
#[derive(Debug, Clone)]
pub struct WorkflowAttempt {
    pub attempt_id: String,
    pub request_id: String,
    pub trace_id: String,
    pub workflow_name: String,
    pub workspace_id: String,
    pub project_id: Option<String>,
    pub state: WorkflowState,
    pub error_code: Option<String>,
    pub diagnostic_id: String,
    pub user_message: Option<String>,
    pub steps: Vec<WorkflowStepEvent>,
    pub created_at: i64,
    pub updated_at: i64,
}

/// Response carrying one attempt.
#[derive(Debug, Clone)]
pub struct AttemptResponse {
    pub status: String,
    pub attempt: WorkflowAttempt,
}

/// Health snapshot of the diagnostics channel.
#[derive(Debug, Clone)]
pub struct DiagnosticsHealthResponse {
    pub status: String,
    pub ladybug_available: bool,
    pub workspace_id: String,
    pub active_attempts: usize,
}

/// The health of the diagnostics channel of the default workspace: status `ok`, whether
/// the graph database is open, and how many attempts are recorded.
pub fn health_snapshot(ladybug_available: bool, active_attempts: usize) -> (r:
    DiagnosticsHealthResponse)
    ensures
        r.status@ == "ok"@,
        r.ladybug_available == ladybug_available,
        r.workspace_id@ == "default"@,
        r.active_attempts == active_attempts,
{
    DiagnosticsHealthResponse {
        status: own("ok"),
        ladybug_available,
        workspace_id: own("default"),
        active_attempts,
    }
}

/// User-safe error payload for failed API calls.
#[derive(Debug, Clone)]
pub struct ApiErrorBody {
    pub status: String,
    pub error_code: String,
    pub diagnostic_id: String,
    pub message: String,
    pub request_id: Option<String>,
    pub attempt_id: Option<String>,
}

/// Mathematical value of a step.
pub struct StepView {
    pub step_name: Seq<char>,
    pub event: Seq<char>,
    pub duration_ms: Option<u64>,
    pub error_code: Option<Seq<char>>,
    pub message: Option<Seq<char>>,
    pub at: i64,
}

impl View for WorkflowStepEvent {
    type V = StepView;

    open spec fn view(&self) -> StepView {
        StepView {
            step_name: self.step_name@,
            event: self.event@,
            duration_ms: self.duration_ms,
            error_code: opt_view(self.error_code),
            message: opt_view(self.message),
            at: self.at,
        }
    }
}

/// Mathematical value of a list of steps.
pub open spec fn steps_view(v: Seq<WorkflowStepEvent>) -> Seq<StepView> {
    v.map_values(|s: WorkflowStepEvent| s@)
}

/// Mathematical value of an attempt.
pub struct AttemptView {
    pub attempt_id: Seq<char>,
    pub request_id: Seq<char>,
    pub trace_id: Seq<char>,
    pub workflow_name: Seq<char>,
    pub workspace_id: Seq<char>,
    pub project_id: Option<Seq<char>>,
    pub state: WorkflowState,
    pub error_code: Option<Seq<char>>,
    pub diagnostic_id: Seq<char>,
    pub user_message: Option<Seq<char>>,
    pub steps: Seq<StepView>,
    pub created_at: i64,
    pub updated_at: i64,
}

impl View for WorkflowAttempt {
    type V = AttemptView;

    open spec fn view(&self) -> AttemptView {
        AttemptView {
            attempt_id: self.attempt_id@,
            request_id: self.request_id@,
            trace_id: self.trace_id@,
            workflow_name: self.workflow_name@,
            workspace_id: self.workspace_id@,
            project_id: opt_view(self.project_id),
            state: self.state,
            error_code: opt_view(self.error_code),
            diagnostic_id: self.diagnostic_id@,
            user_message: opt_view(self.user_message),
            steps: steps_view(self.steps@),
            created_at: self.created_at,
            updated_at: self.updated_at,
        }
    }
}

impl WorkflowStepEvent {
    /// A copy of this step.
    pub fn copy(&self) -> (r: WorkflowStepEvent)
        ensures
            r@ == self@,
    {
        WorkflowStepEvent {
            step_name: own(self.step_name.as_str()),
            event: own(self.event.as_str()),
            duration_ms: self.duration_ms,
            error_code: clone_opt(&self.error_code),
            message: clone_opt(&self.message),
            at: self.at,
        }
    }
}

/// A copy of a list of steps.
pub fn copy_steps(v: &Vec<WorkflowStepEvent>) -> (r: Vec<WorkflowStepEvent>)
    ensures
        steps_view(r@) == steps_view(v@),
{
    let mut r: Vec<WorkflowStepEvent> = Vec::new();
    let mut i: usize = 0;
    while i < v.len()
        invariant
            i <= v@.len(),
            steps_view(r@) == steps_view(v@.take(i as int)),
        decreases v@.len() - i,
    {
        let ghost before = r@;
        r.push(v[i].copy());
        assert(v@.take(i + 1) =~= v@.take(i as int).push(v@[i as int]));
        assert(steps_view(r@) =~= steps_view(before).push(v@[i as int]@));
        assert(steps_view(v@.take(i + 1)) =~= steps_view(v@.take(i as int)).push(v@[i as int]@));
        i = i + 1;
    }
    assert(v@.take(v@.len() as int) =~= v@);
    r
}

impl WorkflowAttempt {
    /// A copy of this attempt.
    pub fn copy(&self) -> (r: WorkflowAttempt)
        ensures
            r@ == self@,
    {
        WorkflowAttempt {
            attempt_id: own(self.attempt_id.as_str()),
            request_id: own(self.request_id.as_str()),
            trace_id: own(self.trace_id.as_str()),
            workflow_name: own(self.workflow_name.as_str()),
            workspace_id: own(self.workspace_id.as_str()),
            project_id: clone_opt(&self.project_id),
            state: self.state,
            error_code: clone_opt(&self.error_code),
            diagnostic_id: own(self.diagnostic_id.as_str()),
            user_message: clone_opt(&self.user_message),
            steps: copy_steps(&self.steps),
            created_at: self.created_at,
            updated_at: self.updated_at,
        }
    }
}

/// The one step of a heartbeat attempt, finished at `now`.
pub open spec fn ping_step(now: i64) -> StepView {
    StepView {
        step_name: "ping"@,
        event: "step_finished"@,
        duration_ms: Some(0),
        error_code: None,
        message: None,
        at: now,
    }
}

/// A completed heartbeat attempt with the given ids, made at `now`.
pub open spec fn ping_attempt(
    attempt_id: Seq<char>,
    request_id: Seq<char>,
    trace_id: Seq<char>,
    diagnostic_id: Seq<char>,
    now: i64,
) -> AttemptView {
    AttemptView {
        attempt_id,
        request_id,
        trace_id,
        workflow_name: "diagnostics_ping"@,
        workspace_id: "default"@,
        project_id: None,
        state: WorkflowState::Completed,
        error_code: None,
        diagnostic_id,
        user_message: Some("Diagnostics channel OK"@),
        steps: seq![ping_step(now)],
        created_at: now,
        updated_at: now,
    }
}

/// The heartbeat attempt with the given ids and time.
pub fn ping_attempt_with(
    attempt_id: String,
    request_id: String,
    trace_id: String,
    diagnostic_id: String,
    now: i64,
) -> (r: WorkflowAttempt)
    ensures
        r@ == ping_attempt(attempt_id@, request_id@, trace_id@, diagnostic_id@, now),
{
    let step = WorkflowStepEvent {
        step_name: own("ping"),
        event: own("step_finished"),
        duration_ms: Some(0),
        error_code: None,
        message: None,
        at: now,
    };
    let steps = vec![step];
    let r = WorkflowAttempt {
        attempt_id,
        request_id,
        trace_id,
        workflow_name: own("diagnostics_ping"),
        workspace_id: own("default"),
        project_id: None,
        state: WorkflowState::Completed,
        error_code: None,
        diagnostic_id,
        user_message: Some(own("Diagnostics channel OK")),
        steps,
        created_at: now,
        updated_at: now,
    };
    assert(steps_view(r.steps@) =~= seq![ping_step(now)]);
    r
}

/// A fresh heartbeat attempt: new correlation ids, made now.
pub fn new_ping_attempt() -> (r: WorkflowAttempt)
    ensures
        exists|a: Seq<char>, q: Seq<char>, t: Seq<char>, d: Seq<char>, now: i64|
            r@ == ping_attempt(a, q, t, d, now),
        r.attempt_id@.take(4) == "att_"@ && is_uuid_text(r.attempt_id@.skip(4)),
        r.request_id@.take(4) == "req_"@ && is_uuid_text(r.request_id@.skip(4)),
        r.trace_id@.take(3) == "tr_"@ && is_uuid_text(r.trace_id@.skip(3)),
        r.diagnostic_id@.take(5) == "diag_"@ && is_uuid_simple(r.diagnostic_id@.skip(5)),
{
    let now = now_millis();
    let attempt_id = new_attempt_id();
    let request_id = new_request_id();
    let trace_id = new_trace_id();
    let diagnostic_id = new_diagnostic_id();
    ping_attempt_with(attempt_id, request_id, trace_id, diagnostic_id, now)
}

/// In-memory store of workflow attempts, keyed by attempt id.
pub struct AttemptStore {
    inner: StringHashMap<WorkflowAttempt>,
}

impl View for AttemptStore {
    type V = Map<Seq<char>, AttemptView>;

    closed spec fn view(&self) -> Map<Seq<char>, AttemptView> {
        Map::new(|k: Seq<char>| self.inner@.contains_key(k), |k: Seq<char>| self.inner@[k]@)
    }
}

impl AttemptStore {
    /// An empty store.
    pub fn new() -> (r: AttemptStore)
        ensures
            r@ == Map::<Seq<char>, AttemptView>::empty(),
    {
        let r = AttemptStore { inner: StringHashMap::new() };
        assert(r@ =~= Map::<Seq<char>, AttemptView>::empty());
        r
    }

    /// Stores `attempt` under its id, replacing any attempt with that id.
    pub fn insert(&mut self, attempt: WorkflowAttempt)
        ensures
            final(self)@ == old(self)@.insert(attempt.attempt_id@, attempt@),
    {
        let key = own(attempt.attempt_id.as_str());
        self.inner.insert(key, attempt);
        assert(self@ =~= old(self)@.insert(attempt.attempt_id@, attempt@));
    }

    /// A copy of the attempt with this id, if one is stored.
    pub fn get(&self, attempt_id: &str) -> (r: Option<WorkflowAttempt>)
        ensures
            match r {
                Some(a) => self@.contains_key(attempt_id@) && a@ == self@[attempt_id@],
                None => !self@.contains_key(attempt_id@),
            },
    {
        match self.inner.get(attempt_id) {
            Some(a) => Some(a.copy()),
            None => None,
        }
    }

    /// How many attempts are stored.
    pub fn len(&self) -> (r: usize)
        ensures
            r == self@.len(),
    {
        assert(self@.dom() =~= self.inner@.dom());
        self.inner.len()
    }

    /// Replaces the stored attempt with id `attempt_id` by `f(stored)` with `updated_at`
    /// set to `now`, and returns a copy of the result; `None`, with the store unchanged,
    /// when no attempt has that id.
    fn replace_with(&mut self, attempt_id: &str, new: WorkflowAttempt) -> (r: Option<WorkflowAttempt>)
        requires
            old(self)@.contains_key(attempt_id@),
        ensures
            final(self)@ == old(self)@.insert(attempt_id@, new@),
            r matches Some(a) && a@ == new@,
    {
        let out = new.copy();
        let key = own(attempt_id);
        self.inner.insert(key, new);
        assert(self@ =~= old(self)@.insert(attempt_id@, new@));
        Some(out)
    }

    /// Appends `step` to the attempt with id `attempt_id` and stamps it with `now`;
    /// returns a copy of the updated attempt, or `None` (store unchanged) when there is none.
    pub fn push_step_at(&mut self, attempt_id: &str, step: WorkflowStepEvent, now: i64) -> (r: Option<
        WorkflowAttempt,
    >)
        ensures
            old(self)@.contains_key(attempt_id@) ==> {
                let a = old(self)@[attempt_id@];
                let b = with_step(a, step@, now);
                &&& final(self)@ == old(self)@.insert(attempt_id@, b)
                &&& r matches Some(x) && x@ == b
            },
            !old(self)@.contains_key(attempt_id@) ==> final(self)@ == old(self)@ && r is None,
    {
        match self.get(attempt_id) {
            None => None,
            Some(a) => {
                let mut a = a;
                let ghost before = a.steps@;
                a.steps.push(step);
                assert(steps_view(a.steps@) =~= steps_view(before).push(a.steps@.last()@));
                a.updated_at = now;
                self.replace_with(attempt_id, a)
            },
        }
    }

    /// Sets the state of the attempt with id `attempt_id` and stamps it with `now`;
    /// returns a copy of the updated attempt, or `None` (store unchanged) when there is none.
    pub fn set_state_at(&mut self, attempt_id: &str, state: WorkflowState, now: i64) -> (r: Option<
        WorkflowAttempt,
    >)
        ensures
            old(self)@.contains_key(attempt_id@) ==> {
                let a = old(self)@[attempt_id@];
                let b = with_state(a, state, now);
                &&& final(self)@ == old(self)@.insert(attempt_id@, b)
                &&& r matches Some(x) && x@ == b
            },
            !old(self)@.contains_key(attempt_id@) ==> final(self)@ == old(self)@ && r is None,
    {
        match self.get(attempt_id) {
            None => None,
            Some(a) => {
                let mut a = a;
                a.state = state;
                a.updated_at = now;
                self.replace_with(attempt_id, a)
            },
        }
    }

    /// Marks the attempt with id `attempt_id` failed with the given code and message and
    /// stamps it with `now`; returns a copy of the updated attempt, or `None` (store
    /// unchanged) when there is none.
    pub fn fail_at(&mut self, attempt_id: &str, error_code: &str, user_message: &str, now: i64) -> (r:
        Option<WorkflowAttempt>)
        ensures
            old(self)@.contains_key(attempt_id@) ==> {
                let a = old(self)@[attempt_id@];
                let b = failed(a, error_code@, user_message@, now);
                &&& final(self)@ == old(self)@.insert(attempt_id@, b)
                &&& r matches Some(x) && x@ == b
            },
            !old(self)@.contains_key(attempt_id@) ==> final(self)@ == old(self)@ && r is None,
    {
        match self.get(attempt_id) {
            None => None,
            Some(a) => {
                let mut a = a;
                a.state = WorkflowState::Failed;
                a.error_code = Some(own(error_code));
                a.user_message = Some(own(user_message));
                a.updated_at = now;
                self.replace_with(attempt_id, a)
            },
        }
    }

    /// [`Self::push_step_at`] at the current time.
    pub fn push_step(&mut self, attempt_id: &str, step: WorkflowStepEvent)
        ensures
            old(self)@.contains_key(attempt_id@) ==> exists|now: i64|
                final(self)@ == old(self)@.insert(
                    attempt_id@,
                    #[trigger] with_step(old(self)@[attempt_id@], step@, now),
                ),
            !old(self)@.contains_key(attempt_id@) ==> final(self)@ == old(self)@,
    {
        let now = now_millis();
        let _ = self.push_step_at(attempt_id, step, now);
    }

    /// [`Self::set_state_at`] at the current time.
    pub fn set_state(&mut self, attempt_id: &str, state: WorkflowState)
        ensures
            old(self)@.contains_key(attempt_id@) ==> exists|now: i64|
                final(self)@ == old(self)@.insert(
                    attempt_id@,
                    #[trigger] with_state(old(self)@[attempt_id@], state, now),
                ),
            !old(self)@.contains_key(attempt_id@) ==> final(self)@ == old(self)@,
    {
        let now = now_millis();
        let _ = self.set_state_at(attempt_id, state, now);
    }

    /// [`Self::fail_at`] at the current time.
    pub fn fail(&mut self, attempt_id: &str, error_code: &str, user_message: &str) -> (r: Option<
        WorkflowAttempt,
    >)
        ensures
            old(self)@.contains_key(attempt_id@) ==> exists|now: i64| {
                let b = #[trigger] failed(old(self)@[attempt_id@], error_code@, user_message@, now);
                &&& final(self)@ == old(self)@.insert(attempt_id@, b)
                &&& r matches Some(x) && x@ == b
            },
            !old(self)@.contains_key(attempt_id@) ==> final(self)@ == old(self)@ && r is None,
    {
        let now = now_millis();
        self.fail_at(attempt_id, error_code, user_message, now)
    }
}

/// `a` with `step` appended, stamped with `now`.
pub open spec fn with_step(a: AttemptView, step: StepView, now: i64) -> AttemptView {
    AttemptView { steps: a.steps.push(step), updated_at: now, ..a }
}

/// `a` in state `state`, stamped with `now`.
pub open spec fn with_state(a: AttemptView, state: WorkflowState, now: i64) -> AttemptView {
    AttemptView { state, updated_at: now, ..a }
}

/// `a` marked failed with the given code and message, stamped with `now`.
pub open spec fn failed(a: AttemptView, error_code: Seq<char>, user_message: Seq<char>, now: i64) -> AttemptView {
    AttemptView {
        state: WorkflowState::Failed,
        error_code: Some(error_code),
        user_message: Some(user_message),
        updated_at: now,
        ..a
    }
}

/// Every recorded attempt is stored under its own id.
pub open spec fn keyed_by_id(m: Map<Seq<char>, AttemptView>) -> bool {
    forall|k: Seq<char>| #[trigger] m.contains_key(k) ==> m[k].attempt_id == k
}

/// `b` is `a` later in its life: the same attempt (ids, workflow, workspace, project,
/// creation time) whose steps begin with those of `a`.
pub open spec fn same_attempt_later(a: AttemptView, b: AttemptView) -> bool {
    &&& b.attempt_id == a.attempt_id
    &&& b.request_id == a.request_id
    &&& b.trace_id == a.trace_id
    &&& b.workflow_name == a.workflow_name
    &&& b.workspace_id == a.workspace_id
    &&& b.project_id == a.project_id
    &&& b.diagnostic_id == a.diagnostic_id
    &&& b.created_at == a.created_at
    &&& b.steps.len() >= a.steps.len()
    &&& b.steps.take(a.steps.len() as int) == a.steps
}

/// The attempt store's records stay keyed by their ids through every operation:
/// recording an attempt, and adding a step to, moving the state of, or failing a recorded
/// one. Each update keeps the attempt's identity and the steps it had, and a record is read
/// back as it was written.
pub proof fn lemma_attempt_store_keeps_ids(
    m: Map<Seq<char>, AttemptView>,
    a: AttemptView,
    id: Seq<char>,
    step: StepView,
    state: WorkflowState,
    code: Seq<char>,
    message: Seq<char>,
    now: i64,
)
    requires
        keyed_by_id(m),
        m.contains_key(id),
    ensures
        keyed_by_id(m.insert(a.attempt_id, a)),
        m.insert(a.attempt_id, a)[a.attempt_id] == a,
        keyed_by_id(m.insert(id, with_step(m[id], step, now))),
        keyed_by_id(m.insert(id, with_state(m[id], state, now))),
        keyed_by_id(m.insert(id, failed(m[id], code, message, now))),
        same_attempt_later(m[id], with_step(m[id], step, now)),
        same_attempt_later(m[id], with_state(m[id], state, now)),
        same_attempt_later(m[id], failed(m[id], code, message, now)),
        with_step(m[id], step, now).steps.last() == step,
{
    let b = m[id];
    assert(b.steps.take(b.steps.len() as int) =~= b.steps);
    assert(b.steps.push(step).take(b.steps.len() as int) =~= b.steps);
}

} // verus!
