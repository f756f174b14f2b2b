//! The workspace agent: chat requests, the local fallback reply and its edit proposals.
use vstd::prelude::*;

use crate::diagnostics::{steps_view, AttemptView, StepView, WorkflowAttempt, WorkflowState, WorkflowStepEvent};
use crate::model::{cat, clone_opt, opt_view, own};
use crate::observability::{is_uuid_simple, uuid_v4_simple};
use crate::preview::{byte_len, utf8_len_exec};
use crate::text::{
    ascii_lower, chars_of, contains, contains_exec, decimal, fmt_usize, string_of,
    to_ascii_lower,
};

verus! {

/// A chat message to the agent, with the note or board it is about.
#[derive(Debug, Clone)]
pub struct AgentChatRequest {
    pub workspace_id: String,
    pub project_id: Option<String>,
    pub message: String,
    pub note_id: Option<String>,
    pub board_id: Option<String>,
}

/// An edit the agent proposes.
#[derive(Debug, Clone)]
pub struct AgentProposal {
    pub proposal_id: String,
    pub title: String,
    pub summary: String,
    pub suggested_markdown: Option<String>,
    pub patch_preview: Option<String>,
}

/// The agent's answer.
#[derive(Debug, Clone)]
pub struct AgentChatResponse {
    pub status: String,
    pub attempt_id: String,
    pub request_id: String,
    pub reply: String,
    pub provider: String,
    pub proposals: Vec<AgentProposal>,
}

/// The reply of the agent: with a provider configured, a stub note giving the message
/// length in bytes; otherwise the local assistant echoing the first 200 characters.
pub open spec fn reply_text(message: Seq<char>, provider_configured: bool) -> Seq<char> {
    if provider_configured {
        "Provider URL configured but stub only: received "@ + decimal(byte_len(message))
            + " chars. Set AM_AGENT_PROVIDER_URL to enable future HTTP wiring."@
    } else {
        "Local workspace assistant (no hosted MCP). You said: "@ + (if message.len() <= 200 {
            message
        } else {
            message.take(200)
        }) + "\n\nTip: select a note and ask for edits to see proposals."@
    }
}

/// Whether a request asks for an edit proposal: it names a note and its message, ASCII
/// lower-cased, contains `edit`.
pub open spec fn wants_proposal(note_id: Option<String>, message: Seq<char>) -> bool {
    note_id is Some && contains(ascii_lower(message), "edit"@)
}

/// Number of UTF-8 bytes of `v`.
fn byte_count(v: &Vec<char>) -> (r: usize)
    requires
        byte_len(v@) <= usize::MAX,
    ensures
        r == byte_len(v@),
{
    let mut total: usize = 0;
    let mut i: usize = 0;
    while i < v.len()
        invariant
            i <= v@.len(),
            total == byte_len(v@.take(i as int)),
            byte_len(v@) <= usize::MAX,
        decreases v@.len() - i,
    {
        assert(v@.take(i + 1).drop_last() =~= v@.take(i as int));
        proof {
            lemma_byte_len_prefix(v@, i + 1);
        }
        total = total + utf8_len_exec(v[i]);
        i = i + 1;
    }
    assert(v@.take(v@.len() as int) =~= v@);
    total
}

proof fn lemma_byte_len_prefix(s: Seq<char>, k: int)
    requires
        0 <= k <= s.len(),
    ensures
        byte_len(s.take(k)) <= byte_len(s),
    decreases s.len() - k,
{
    if k < s.len() {
        lemma_byte_len_prefix(s, k + 1);
        assert(s.take(k + 1).drop_last() =~= s.take(k));
    } else {
        assert(s.take(k) =~= s);
    }
}

/// The agent's reply text.
pub fn reply_for(message: &str, provider_configured: bool) -> (r: String)
    requires
        byte_len(message@) <= usize::MAX,
    ensures
        r@ == reply_text(message@, provider_configured),
{
    let v = chars_of(message);
    if provider_configured {
        let n = byte_count(&v);
        let digits = string_of(&fmt_usize(n));
        let mut r = cat("Provider URL configured but stub only: received ", digits.as_str());
        r.append(" chars. Set AM_AGENT_PROVIDER_URL to enable future HTTP wiring.");
        r
    } else {
        let head = if v.len() <= 200 {
            string_of(&v)
        } else {
            string_of(&crate::text::sub_vec(&v, 0, 200))
        };
        proof {
            if v@.len() > 200 {
                assert(v@.subrange(0, 200) =~= v@.take(200));
            }
        }
        let mut r = cat("Local workspace assistant (no hosted MCP). You said: ", head.as_str());
        r.append("\n\nTip: select a note and ask for edits to see proposals.");
        r
    }
}

/// The proposal offered for an edit request, under the given id.
pub open spec fn is_local_proposal(p: AgentProposal, proposal_id: Seq<char>) -> bool {
    &&& p.proposal_id@ == proposal_id
    &&& p.title@ == "Suggested note tweak"@
    &&& p.summary@ == "Local fallback proposal — review before applying."@
    &&& p.suggested_markdown matches Some(m) && m@ == "> Agent suggestion (local fallback)\n\n"@
    &&& p.patch_preview is None
}

/// The agent's answer to `req` for the given attempt and request, with `proposal_id` for
/// a proposal if one is made.
pub fn chat_reply(
    req: &AgentChatRequest,
    attempt_id: &str,
    request_id: &str,
    provider_configured: bool,
    proposal_id: String,
) -> (r: AgentChatResponse)
    requires
        byte_len(req.message@) <= usize::MAX,
    ensures
        r.status@ == "ok"@,
        r.attempt_id@ == attempt_id@,
        r.request_id@ == request_id@,
        r.reply@ == reply_text(req.message@, provider_configured),
        r.provider@ == (if provider_configured {
            "http_stub"@
        } else {
            "local_fallback"@
        }),
        wants_proposal(req.note_id, req.message@) ==> r.proposals@.len() == 1 && is_local_proposal(
            r.proposals@[0],
            proposal_id@,
        ),
        !wants_proposal(req.note_id, req.message@) ==> r.proposals@.len() == 0,
{
    let provider = if provider_configured {
        own("http_stub")
    } else {
        own("local_fallback")
    };
    let reply = reply_for(req.message.as_str(), provider_configured);
    let mut proposals: Vec<AgentProposal> = Vec::new();
    let lower = to_ascii_lower(&chars_of(req.message.as_str()));
    let edit = chars_of("edit");
    proof {
        reveal_strlit("edit");
    }
    if req.note_id.is_some() && contains_exec(lower.as_slice(), edit.as_slice()) {
        proposals.push(
            AgentProposal {
                proposal_id,
                title: own("Suggested note tweak"),
                summary: own("Local fallback proposal — review before applying."),
                suggested_markdown: Some(own("> Agent suggestion (local fallback)\n\n")),
                patch_preview: None,
            },
        );
    }
    AgentChatResponse {
        status: own("ok"),
        attempt_id: own(attempt_id),
        request_id: own(request_id),
        reply,
        provider,
        proposals,
    }
}

/// Agent chat with the local fallback: answers `req`, naming a proposal `prop_` followed
/// by a fresh UUID in simple form. Whether a provider URL is configured is read by the
/// caller from the environment.
pub struct AgentService;

impl AgentService {
    /// The agent's answer to `req`.
    pub fn chat(req: &AgentChatRequest, attempt_id: &str, request_id: &str, provider_configured: bool) -> (r:
        AgentChatResponse)
        requires
            byte_len(req.message@) <= usize::MAX,
        ensures
            r.status@ == "ok"@,
            r.attempt_id@ == attempt_id@,
            r.request_id@ == request_id@,
            r.reply@ == reply_text(req.message@, provider_configured),
            r.provider@ == (if provider_configured {
                "http_stub"@
            } else {
                "local_fallback"@
            }),
            wants_proposal(req.note_id, req.message@) ==> r.proposals@.len() == 1
                && r.proposals@[0].proposal_id@.take(5) == "prop_"@ && is_uuid_simple(
                r.proposals@[0].proposal_id@.skip(5),
            ) && is_local_proposal(r.proposals@[0], r.proposals@[0].proposal_id@),
            !wants_proposal(req.note_id, req.message@) ==> r.proposals@.len() == 0,
    {
        proof {
            reveal_strlit("prop_");
        }
        let u = uuid_v4_simple();
        let id = cat("prop_", u.as_str());
        assert(id@.take(5) =~= "prop_"@);
        assert(id@.skip(5) =~= u@);
        chat_reply(req, attempt_id, request_id, provider_configured, id)
    }
}

/// The attempt a chat request opens: workflow `agent_chat` in the request's workspace
/// and project, state `Requested`, one started `context_summarized` step, made at `now`.
pub open spec fn agent_attempt_spec(
    req: AgentChatRequest,
    attempt_id: Seq<char>,
    request_id: Seq<char>,
    trace_id: Seq<char>,
    diagnostic_id: Seq<char>,
    now: i64,
) -> AttemptView {
    AttemptView {
        attempt_id,
        request_id,
        trace_id,
        workflow_name: "agent_chat"@,
        workspace_id: req.workspace_id@,
        project_id: opt_view(req.project_id),
        state: WorkflowState::Requested,
        error_code: None,
        diagnostic_id,
        user_message: None,
        steps: seq![
            StepView {
                step_name: "context_summarized"@,
                event: "step_started"@,
                duration_ms: None,
                error_code: None,
                message: None,
                at: now,
            },
        ],
        created_at: now,
        updated_at: now,
    }
}

/// The attempt a chat request opens.
pub fn agent_attempt(
    req: &AgentChatRequest,
    attempt_id: String,
    request_id: String,
    trace_id: String,
    diagnostic_id: String,
    now: i64,
) -> (r: WorkflowAttempt)
    ensures
        r@ == agent_attempt_spec(*req, attempt_id@, request_id@, trace_id@, diagnostic_id@, now),
{
    let step = WorkflowStepEvent {
        step_name: own("context_summarized"),
        event: own("step_started"),
        duration_ms: None,
        error_code: None,
        message: None,
        at: now,
    };
    let r = WorkflowAttempt {
        attempt_id,
        request_id,
        trace_id,
        workflow_name: own("agent_chat"),
        workspace_id: own(req.workspace_id.as_str()),
        project_id: clone_opt(&req.project_id),
        state: WorkflowState::Requested,
        error_code: None,
        diagnostic_id,
        user_message: None,
        steps: vec![step],
        created_at: now,
        updated_at: now,
    };
    assert(steps_view(r.steps@) =~= agent_attempt_spec(
        *req,
        r.attempt_id@,
        r.request_id@,
        r.trace_id@,
        r.diagnostic_id@,
        now,
    ).steps);
    r
}

} // verus!
