//! The operator query shell: the attempt a query opens, and how its outcome is recorded
//! and answered.
use vstd::prelude::*;

use crate::cypher::{QueryClassification, QueryResult, DEFAULT_ROW_LIMIT};
use crate::diagnostics::{
    failed, steps_view, with_state, AttemptStore, AttemptView, StepView, WorkflowAttempt,
    WorkflowState, WorkflowStepEvent,
};
use crate::model::{opt_view, own};

verus! {

/// A shell query request.
#[derive(Debug, Clone)]
pub struct QueryBody {
    pub cypher: String,
    pub limit: Option<usize>,
    pub workspace_id: Option<String>,
}

/// The row limit of a shell query: the requested one (100 when absent), at most 500.
pub open spec fn shell_row_limit(limit: Option<usize>) -> usize {
    let l = match limit {
        Some(l) => l,
        None => 100,
    };
    if l < 500 {
        l
    } else {
        500
    }
}

/// The row limit of a shell query.
pub fn row_limit(limit: Option<usize>) -> (r: usize)
    ensures
        r == shell_row_limit(limit),
{
    let l = match limit {
        Some(l) => l,
        None => DEFAULT_ROW_LIMIT,
    };
    if l < 500 {
        l
    } else {
        500
    }
}

/// The attempt a shell query opens: workflow `graph_query` in the given workspace
/// (`default` when absent), state `Requested`, one started `validate` step, made at `now`.
pub open spec fn query_attempt_spec(
    attempt_id: Seq<char>,
    request_id: Seq<char>,
    trace_id: Seq<char>,
    diagnostic_id: Seq<char>,
    workspace_id: Option<Seq<char>>,
    now: i64,
) -> AttemptView {
    AttemptView {
        attempt_id,
        request_id,
        trace_id,
        workflow_name: "graph_query"@,
        workspace_id: match workspace_id {
            Some(w) => w,
            None => "default"@,
        },
        project_id: None,
        state: WorkflowState::Requested,
        error_code: None,
        diagnostic_id,
        user_message: None,
        steps: seq![
            StepView {
                step_name: "validate"@,
                event: "step_started"@,
                duration_ms: None,
                error_code: None,
                message: None,
                at: now,
            },
        ],
        created_at: now,
        updated_at: now,
    }
}

/// The attempt a shell query opens.
pub fn query_attempt(
    attempt_id: String,
    request_id: String,
    trace_id: String,
    diagnostic_id: String,
    workspace_id: Option<String>,
    now: i64,
) -> (r: WorkflowAttempt)
    ensures
        r@ == query_attempt_spec(
            attempt_id@,
            request_id@,
            trace_id@,
            diagnostic_id@,
            opt_view(workspace_id),
            now,
        ),
{
    let ws = match workspace_id {
        Some(w) => w,
        None => own("default"),
    };
    let step = WorkflowStepEvent {
        step_name: own("validate"),
        event: own("step_started"),
        duration_ms: None,
        error_code: None,
        message: None,
        at: now,
    };
    let r = WorkflowAttempt {
        attempt_id,
        request_id,
        trace_id,
        workflow_name: own("graph_query"),
        workspace_id: ws,
        project_id: None,
        state: WorkflowState::Requested,
        error_code: None,
        diagnostic_id,
        user_message: None,
        steps: vec![step],
        created_at: now,
        updated_at: now,
    };
    assert(steps_view(r.steps@) =~= query_attempt_spec(
        r.attempt_id@,
        r.request_id@,
        r.trace_id@,
        r.diagnostic_id@,
        opt_view(workspace_id),
        now,
    ).steps);
    r
}

/// The label of a classification.
pub open spec fn classification_label(c: QueryClassification) -> Seq<char> {
    match c {
        QueryClassification::ReadOnly => "readonly"@,
        QueryClassification::RejectedMutation => "rejected_mutation"@,
        QueryClassification::Empty => "empty"@,
    }
}

/// The label of a classification.
pub fn classification_name(c: QueryClassification) -> (r: String)
    ensures
        r@ == classification_label(c),
{
    match c {
        QueryClassification::ReadOnly => own("readonly"),
        QueryClassification::RejectedMutation => own("rejected_mutation"),
        QueryClassification::Empty => own("empty"),
    }
}

/// The user message of a failed query's error code.
pub open spec fn error_message_of(code: Seq<char>) -> Seq<char> {
    if code == "ladybug_unavailable"@ {
        "Ladybug database is not available"@
    } else if code == "query_limit_exceeded"@ {
        "Query text is too long"@
    } else {
        "Query failed"@
    }
}

/// The user message of a failed query's error code.
pub fn error_message(code: &str) -> (r: String)
    ensures
        r@ == error_message_of(code@),
{
    if crate::text::str_eq(code, "ladybug_unavailable") {
        own("Ladybug database is not available")
    } else if crate::text::str_eq(code, "query_limit_exceeded") {
        own("Query text is too long")
    } else {
        own("Query failed")
    }
}

/// The answer to a shell query.
#[derive(Debug)]
pub enum QueryReply {
    /// The query was answered; `classification` is its label.
    Answered {
        request_id: String,
        attempt_id: String,
        diagnostic_id: String,
        classification: String,
        columns: Vec<String>,
        rows: Vec<Vec<String>>,
        row_count: usize,
        truncated: bool,
        duration_ms: u64,
    },
    /// The query was refused or failed.
    Refused {
        error_code: String,
        diagnostic_id: String,
        request_id: String,
        attempt_id: String,
        message: String,
    },
}

/// Records the outcome of a shell query in its attempt and builds the answer. A rejected
/// mutation fails the attempt with `query_not_readonly`; an error fails it with its code
/// and message; any other result completes it. Each change is stamped with `now`.
pub fn finish_query(
    store: &mut AttemptStore,
    attempt_id: &str,
    request_id: &str,
    diagnostic_id: &str,
    result: Result<QueryResult, String>,
    now: i64,
) -> (r: QueryReply)
    ensures
        old(store)@.contains_key(attempt_id@) ==> final(store)@ == old(store)@.insert(
            attempt_id@,
            match result {
                Ok(q) => if q.classification == QueryClassification::RejectedMutation {
                    failed(
                        old(store)@[attempt_id@],
                        "query_not_readonly"@,
                        "Only read-only Cypher is allowed"@,
                        now,
                    )
                } else {
                    with_state(old(store)@[attempt_id@], WorkflowState::Completed, now)
                },
                Err(code) => failed(old(store)@[attempt_id@], code@, error_message_of(code@), now),
            },
        ),
        !old(store)@.contains_key(attempt_id@) ==> final(store)@ == old(store)@,
        match result {
            Ok(q) => if q.classification == QueryClassification::RejectedMutation {
                r matches QueryReply::Refused { error_code, diagnostic_id: d, request_id: q2, attempt_id: a, message } && error_code@
                    == "query_not_readonly"@ && d@ == diagnostic_id@ && q2@ == request_id@ && a@
                    == attempt_id@ && message@
                    == "Only read-only Cypher is allowed (MATCH, RETURN, etc.)"@
            } else {
                r matches QueryReply::Answered { request_id: q2, attempt_id: a, diagnostic_id: d, classification, columns, rows, row_count, truncated, duration_ms } && q2@ == request_id@ && a@
                    == attempt_id@ && d@ == diagnostic_id@ && classification@
                    == classification_label(q.classification) && columns == q.columns && rows
                    == q.rows && row_count == q.rows@.len() && truncated == q.truncated
                    && duration_ms == q.duration_ms
            },
            Err(code) => r matches QueryReply::Refused { error_code, diagnostic_id: d, request_id: q2, attempt_id: a, message } && error_code@ == code@ && d@
                == diagnostic_id@ && q2@ == request_id@ && a@ == attempt_id@ && message@
                == error_message_of(code@),
        },
{
    match result {
        Ok(q) => {
            if q.classification == QueryClassification::RejectedMutation {
                let _ = store.fail_at(
                    attempt_id,
                    "query_not_readonly",
                    "Only read-only Cypher is allowed",
                    now,
                );
                QueryReply::Refused {
                    error_code: own("query_not_readonly"),
                    diagnostic_id: own(diagnostic_id),
                    request_id: own(request_id),
                    attempt_id: own(attempt_id),
                    message: own("Only read-only Cypher is allowed (MATCH, RETURN, etc.)"),
                }
            } else {
                let _ = store.set_state_at(attempt_id, WorkflowState::Completed, now);
                let classification = classification_name(q.classification);
                let row_count = q.rows.len();
                QueryReply::Answered {
                    request_id: own(request_id),
                    attempt_id: own(attempt_id),
                    diagnostic_id: own(diagnostic_id),
                    classification,
                    columns: q.columns,
                    rows: q.rows,
                    row_count,
                    truncated: q.truncated,
                    duration_ms: q.duration_ms,
                }
            }
        },
        Err(code) => {
            let message = error_message(code.as_str());
            let _ = store.fail_at(attempt_id, code.as_str(), message.as_str(), now);
            QueryReply::Refused {
                error_code: code,
                diagnostic_id: own(diagnostic_id),
                request_id: own(request_id),
                attempt_id: own(attempt_id),
                message,
            }
        },
    }
}

} // verus!
