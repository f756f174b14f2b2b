use am_workspace::agent::{chat_reply, AgentChatRequest, AgentService};
use am_workspace::config::{parse_port, ScopeFilter, ServerConfig};
use am_workspace::cypher::{LadybugQueryService, QueryClassification, QueryResult};
use am_workspace::diagnostics::{new_ping_attempt, AttemptStore, WorkflowState, WorkflowStepEvent};
use am_workspace::observability::{new_attempt_id, new_diagnostic_id, new_request_id, new_trace_id};
use am_workspace::shell::{error_message, finish_query, query_attempt, row_limit, QueryReply};

#[test]
fn correlation_ids_have_prefixes() {
    let r = new_request_id();
    assert!(r.starts_with("req_") && r.len() == 40);
    assert!(new_attempt_id().starts_with("att_"));
    assert!(new_trace_id().starts_with("tr_"));
    let d = new_diagnostic_id();
    assert!(d.starts_with("diag_") && d.len() == 37);
    assert_ne!(new_request_id(), new_request_id());
}

#[test]
fn attempt_store_get_after_insert() {
    let mut s = AttemptStore::new();
    let a = new_ping_attempt();
    let id = a.attempt_id.clone();
    s.insert(a);
    assert_eq!(s.len(), 1);
    let got = s.get(&id).unwrap();
    assert_eq!(got.workflow_name, "diagnostics_ping");
    assert_eq!(got.state, WorkflowState::Completed);
    assert_eq!(got.steps.len(), 1);
    assert!(s.get("nope").is_none());
}

#[test]
fn attempt_store_updates() {
    let mut s = AttemptStore::new();
    let a = query_attempt("a1".into(), "r1".into(), "t1".into(), "d1".into(), None, 10);
    s.insert(a);
    let failed = s.fail_at("a1", "code", "msg", 20).unwrap();
    assert_eq!(failed.state, WorkflowState::Failed);
    assert_eq!(failed.error_code.as_deref(), Some("code"));
    assert_eq!(failed.updated_at, 20);
    assert_eq!(failed.created_at, 10);
    s.push_step_at(
        "a1",
        WorkflowStepEvent {
            step_name: "x".into(),
            event: "e".into(),
            duration_ms: None,
            error_code: None,
            message: None,
            at: 30,
        },
        30,
    );
    assert_eq!(s.get("a1").unwrap().steps.len(), 2);
    s.set_state("a1", WorkflowState::Completed);
    assert_eq!(s.get("a1").unwrap().state, WorkflowState::Completed);
    assert!(s.fail("missing", "c", "m").is_none());
    assert_eq!(s.len(), 1);
}

#[test]
fn query_shell_flow() {
    assert_eq!(row_limit(None), 100);
    assert_eq!(row_limit(Some(900)), 500);
    assert_eq!(row_limit(Some(7)), 7);
    let a = query_attempt("a1".into(), "r1".into(), "t1".into(), "d1".into(), Some("ws".into()), 1);
    assert_eq!(a.workflow_name, "graph_query");
    assert_eq!(a.workspace_id, "ws");
    assert_eq!(a.state, WorkflowState::Requested);
    let mut s = AttemptStore::new();
    s.insert(a);
    let rejected = QueryResult {
        classification: QueryClassification::RejectedMutation,
        columns: vec![],
        rows: vec![],
        truncated: false,
        duration_ms: 0,
    };
    match finish_query(&mut s, "a1", "r1", "d1", Ok(rejected), 2) {
        QueryReply::Refused { error_code, .. } => assert_eq!(error_code, "query_not_readonly"),
        _ => panic!("expected refusal"),
    }
    assert_eq!(s.get("a1").unwrap().state, WorkflowState::Failed);
    let ran = LadybugQueryService::ran(vec!["n".into()], vec![vec!["1".into()]], false, 3);
    match finish_query(&mut s, "a1", "r1", "d1", Ok(ran), 4) {
        QueryReply::Answered { classification, row_count, .. } => {
            assert_eq!(classification, "readonly");
            assert_eq!(row_count, 1);
        }
        _ => panic!("expected answer"),
    }
    assert_eq!(s.get("a1").unwrap().state, WorkflowState::Completed);
    match finish_query(&mut s, "a1", "r1", "d1", Err("ladybug_unavailable".into()), 5) {
        QueryReply::Refused { message, .. } => assert_eq!(message, "Ladybug database is not available"),
        _ => panic!("expected refusal"),
    }
    assert_eq!(error_message("other"), "Query failed");
    assert_eq!(error_message("query_limit_exceeded"), "Query text is too long");
}

fn request(message: &str, note: Option<&str>) -> AgentChatRequest {
    AgentChatRequest {
        workspace_id: "default".into(),
        project_id: None,
        message: message.into(),
        note_id: note.map(String::from),
        board_id: None,
    }
}

#[test]
fn agent_local_fallback() {
    let r = AgentService::chat(&request("Please EDIT this", Some("n1")), "att", "req", false);
    assert_eq!(r.provider, "local_fallback");
    assert!(r.reply.starts_with("Local workspace assistant (no hosted MCP). You said: Please EDIT this"));
    assert_eq!(r.proposals.len(), 1);
    assert!(r.proposals[0].proposal_id.starts_with("prop_"));
    assert_eq!(r.proposals[0].title, "Suggested note tweak");
    let r = chat_reply(&request("héllo", None), "a", "q", true, "p".into());
    assert_eq!(r.provider, "http_stub");
    assert!(r.reply.contains("received 6 chars"));
    assert!(r.proposals.is_empty());
    let long = "x".repeat(300);
    let r = chat_reply(&request(&long, None), "a", "q", false, "p".into());
    assert!(r.reply.contains(&"x".repeat(200)) && !r.reply.contains(&"x".repeat(201)));
}

#[test]
fn config_from_values() {
    assert_eq!(parse_port("8080"), Some(8080));
    assert_eq!(parse_port("+80"), Some(80));
    assert_eq!(parse_port("65536"), None);
    assert_eq!(parse_port("8a"), None);
    assert_eq!(parse_port(""), None);
    let c = ServerConfig::from_values(Some("x".into()), None, None, None, None);
    assert_eq!(c.port, 3031);
    assert_eq!(c.store_path, "/tmp/.agentic-memory/workspace-store");
    assert_eq!(c.vault_path, "/tmp/.agentic-memory/workspace-vaults");
    assert_eq!(c.dist_path, "dist");
    let c = ServerConfig::from_values(Some("9000".into()), Some("/home/u".into()), Some("/s".into()), None, Some("d".into()));
    assert_eq!(c.port, 9000);
    assert_eq!(c.store_path, "/s");
    assert_eq!(c.vault_path, "/home/u/.agentic-memory/workspace-vaults");
    assert!(ScopeFilter { repo_id: None, project_id: None }.is_empty());
    assert!(!ScopeFilter { repo_id: Some("r".into()), project_id: None }.is_empty());
}
