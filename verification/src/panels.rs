//! State of the query shell, agent, diagnostics and graph explorer panels, and how each
//! takes in the result of its request.
use vstd::prelude::*;

use crate::agent::{AgentChatResponse, AgentProposal};
use crate::api::Promise;
use crate::diagnostics::DiagnosticsHealthResponse;
use crate::model::{cat, opt_view, own};
use crate::text::{chars_of, decimal, fmt_usize, string_of, trim, trim_exec};

verus! {

/// State of the read-only Cypher shell.
#[derive(Debug)]
pub struct QueryShellState {
    pub cypher: String,
    pub last_columns: Vec<String>,
    pub last_rows: Vec<Vec<String>>,
    pub last_error: Option<String>,
    pub last_attempt_id: Option<String>,
    pub status_message: Option<String>,
}

/// What the shell asks for.
#[derive(Debug)]
pub struct QueryShellOutput {
    pub execute: bool,
}

/// A query result as the shell shows it.
#[derive(Debug, Clone)]
pub struct QueryResultView {
    pub columns: Vec<String>,
    pub rows: Vec<Vec<String>>,
    pub attempt_id: String,
}

impl QueryShellState {
    /// An empty shell.
    pub fn new() -> (r: QueryShellState)
        ensures
            r.cypher@.len() == 0,
            r.last_columns@.len() == 0,
            r.last_rows@.len() == 0,
            r.last_error is None,
            r.last_attempt_id is None,
            r.status_message is None,
    {
        QueryShellState {
            cypher: String::new(),
            last_columns: Vec::new(),
            last_rows: Vec::new(),
            last_error: None,
            last_attempt_id: None,
            status_message: None,
        }
    }
}

/// Takes in the outcome of a shell query. A result replaces columns, rows and attempt id,
/// clears the error and reports `<n> rows`; a refusal becomes the error and clears the
/// status; a failed request becomes the error and leaves the promise idle. A pending or
/// idle promise changes nothing.
pub fn poll_execute(promise: &mut Promise<Result<QueryResultView, String>>, state: &mut QueryShellState)
    ensures
        match *old(promise) {
            Promise::Ready(Ok(v)) => final(state).last_columns == v.columns && final(state).last_rows
                == v.rows && final(state).last_attempt_id == Some(v.attempt_id) && (final(state).last_error is None) && opt_view(final(state).status_message) == Some(decimal(
                v.rows@.len() as nat,
            ) + " rows"@) && *final(promise) is Idle,
            Promise::Ready(Err(e)) => final(state).last_error == Some(e) && (final(state).status_message is None) && final(state).last_rows == old(state).last_rows
                && *final(promise) is Idle,
            Promise::Failed(e) => final(state).last_error == Some(e) && final(state).last_rows == old(state).last_rows && final(state).status_message == old(state).status_message
                && *final(promise) is Idle,
            _ => *final(state) == *old(state) && *final(promise) == *old(promise),
        },
        final(state).cypher == old(state).cypher,
{
    match promise.take() {
        Some(Ok(view)) => {
            let n = view.rows.len();
            state.last_columns = view.columns;
            state.last_rows = view.rows;
            state.last_attempt_id = Some(view.attempt_id);
            state.last_error = None;
            let digits = string_of(&fmt_usize(n));
            state.status_message = Some(cat(digits.as_str(), " rows"));
        },
        Some(Err(e)) => {
            state.last_error = Some(e);
            state.status_message = None;
        },
        None => {},
    }
    let mut tmp = Promise::Idle;
    std::mem::swap(promise, &mut tmp);
    match tmp {
        Promise::Failed(e) => {
            state.last_error = Some(e);
        },
        other => {
            *promise = other;
        },
    }
}

/// State of the agent chat panel.
#[derive(Debug)]
pub struct AgentPanelState {
    pub message: String,
    /// Lines of the conversation, `true` for the user's.
    pub transcript: Vec<(bool, String)>,
    pub proposals: Vec<AgentProposal>,
    pub provider_label: Option<String>,
    pub pending_apply: Option<String>,
}

/// What the agent panel asks for.
#[derive(Debug)]
pub struct AgentPanelOutput {
    pub send_chat: bool,
    pub apply_proposal_id: Option<String>,
}

impl AgentPanelState {
    /// An empty conversation.
    pub fn new() -> (r: AgentPanelState)
        ensures
            r.message@.len() == 0,
            r.transcript@.len() == 0,
            r.proposals@.len() == 0,
            r.provider_label is None,
            r.pending_apply is None,
    {
        AgentPanelState {
            message: String::new(),
            transcript: Vec::new(),
            proposals: Vec::new(),
            provider_label: None,
            pending_apply: None,
        }
    }

    /// Whether the Send button sends: the message is not blank.
    pub fn can_send(&self) -> (r: bool)
        ensures
            r == (trim(self.message@).len() > 0),
    {
        trim_exec(chars_of(self.message.as_str()).as_slice()).len() > 0
    }
}

/// Takes in the agent's answer: the user's message and the reply join the transcript, and
/// the provider and proposals are replaced; a failed request adds `Error: <reason>` to
/// the transcript and leaves the promise idle.
pub fn poll_chat(promise: &mut Promise<AgentChatResponse>, state: &mut AgentPanelState, user_message: &str)
    ensures
        match *old(promise) {
            Promise::Ready(resp) => {
                let n = old(state).transcript@.len() as int;
                &&& final(state).transcript@.len() == n + 2
                &&& final(state).transcript@.take(n) == old(state).transcript@
                &&& final(state).transcript@[n].0
                &&& final(state).transcript@[n].1@ == user_message@
                &&& !final(state).transcript@[n + 1].0
                &&& final(state).transcript@[n + 1].1@ == resp.reply@
                &&& opt_view(final(state).provider_label) == Some(resp.provider@)
                &&& final(state).proposals == resp.proposals
                &&& *final(promise) is Idle
            },
            Promise::Failed(e) => final(state).transcript@ == old(state).transcript@.push(
                final(state).transcript@.last(),
            ) && !final(state).transcript@.last().0 && final(state).transcript@.last().1@
                == "Error: "@ + e@ && final(state).proposals == old(state).proposals
                && *final(promise) is Idle,
            _ => *final(state) == *old(state) && *final(promise) == *old(promise),
        },
        final(state).message == old(state).message,
{
    match promise.take() {
        Some(resp) => {
            state.transcript.push((true, own(user_message)));
            state.transcript.push((false, own(resp.reply.as_str())));
            state.provider_label = Some(own(resp.provider.as_str()));
            state.proposals = resp.proposals;
            assert(state.transcript@.take(old(state).transcript@.len() as int) =~= old(state).transcript@);
        },
        None => {
            let mut tmp = Promise::Idle;
            std::mem::swap(promise, &mut tmp);
            match tmp {
                Promise::Failed(e) => {
                    state.transcript.push((false, cat("Error: ", e.as_str())));
                },
                other => {
                    *promise = other;
                },
            }
        },
    }
}

/// State of the diagnostics panel.
#[derive(Debug)]
pub struct DiagnosticsPanelState {
    pub health: Option<DiagnosticsHealthResponse>,
    pub last_ping_attempt_id: Option<String>,
    pub status_message: Option<String>,
}

/// What the diagnostics panel asks for.
#[derive(Debug)]
pub struct DiagnosticsPanelOutput {
    pub refresh_health: bool,
    pub ping_diagnostics: bool,
}

impl DiagnosticsPanelState {
    /// Nothing loaded.
    pub fn new() -> (r: DiagnosticsPanelState)
        ensures
            r.health is None,
            r.last_ping_attempt_id is None,
            r.status_message is None,
    {
        DiagnosticsPanelState { health: None, last_ping_attempt_id: None, status_message: None }
    }
}

/// Takes in a health snapshot (`Health refreshed.`) or its failure (`Health failed:
/// <reason>`, promise left idle).
pub fn poll_health(promise: &mut Promise<DiagnosticsHealthResponse>, state: &mut DiagnosticsPanelState)
    ensures
        match *old(promise) {
            Promise::Ready(h) => final(state).health == Some(h) && opt_view(final(state).status_message) == Some("Health refreshed."@) && *final(promise) is Idle,
            Promise::Failed(e) => final(state).health == old(state).health && opt_view(final(state).status_message) == Some("Health failed: "@ + e@) && *final(promise) is Idle,
            _ => *final(state) == *old(state) && *final(promise) == *old(promise),
        },
        final(state).last_ping_attempt_id == old(state).last_ping_attempt_id,
{
    match promise.take() {
        Some(h) => {
            state.health = Some(h);
            state.status_message = Some(own("Health refreshed."));
        },
        None => {
            let mut tmp = Promise::Idle;
            std::mem::swap(promise, &mut tmp);
            match tmp {
                Promise::Failed(e) => {
                    state.status_message = Some(cat("Health failed: ", e.as_str()));
                },
                other => {
                    *promise = other;
                },
            }
        },
    }
}

/// Takes in the attempt id of a diagnostics ping (`Diagnostics ping OK.`) or its failure
/// (`Ping failed: <reason>`, promise left idle).
pub fn poll_ping(promise: &mut Promise<String>, state: &mut DiagnosticsPanelState)
    ensures
        match *old(promise) {
            Promise::Ready(id) => final(state).last_ping_attempt_id == Some(id) && opt_view(final(state).status_message) == Some("Diagnostics ping OK."@) && *final(promise) is Idle,
            Promise::Failed(e) => final(state).last_ping_attempt_id == old(state).last_ping_attempt_id && opt_view(final(state).status_message) == Some("Ping failed: "@ + e@) && *final(promise) is Idle,
            _ => *final(state) == *old(state) && *final(promise) == *old(promise),
        },
        final(state).health == old(state).health,
{
    match promise.take() {
        Some(id) => {
            state.last_ping_attempt_id = Some(id);
            state.status_message = Some(own("Diagnostics ping OK."));
        },
        None => {
            let mut tmp = Promise::Idle;
            std::mem::swap(promise, &mut tmp);
            match tmp {
                Promise::Failed(e) => {
                    state.status_message = Some(cat("Ping failed: ", e.as_str()));
                },
                other => {
                    *promise = other;
                },
            }
        },
    }
}

/// What the graph explorer asks for.
#[derive(Debug)]
pub struct GraphViewOutput {
    pub refresh_requested: bool,
}

/// A label cut to `max` characters, with `…` appended when it was longer.
pub open spec fn truncated(text: Seq<char>, max: nat) -> Seq<char> {
    if text.len() <= max {
        text
    } else {
        text.take(max as int).push('…')
    }
}

/// Cuts a label to `max` characters, appending `…` when it was longer.
pub fn truncate_label(text: &str, max: usize) -> (r: String)
    ensures
        r@ == truncated(text@, max as nat),
{
    let v = chars_of(text);
    if v.len() <= max {
        own(text)
    } else {
        let mut t = crate::text::sub_vec(&v, 0, max);
        t.push('…');
        assert(v@.subrange(0, max as int) =~= v@.take(max as int));
        string_of(&t)
    }
}

} // verus!
