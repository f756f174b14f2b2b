use am_workspace::code::{extract_units, LangPack};
use am_workspace::code_writes::{chunk_insert, chunk_props, class_node_sql, function_node_sql};
use am_workspace::codegraph::{
    defines_sql, delete_file_derivatives_sql, describes_sql, detach_chunk_sql, trim_for_embedding,
};
use am_workspace::file_index::{FileIndexer, IndexAction, IndexEvent};
use am_workspace::ids::{chunk_id, class_id, document_id, file_id, function_id};
use md5::Digest;
use am_workspace::paths::short_tail_name;
use am_workspace::registry::FunctionAnchorRegistry;

const SRC: &str = "fn alpha() {\n    1\n}\n\nstruct Beta;\n";

fn start(src: &[u8], dims: usize, batch: usize) -> (FileIndexer, IndexAction) {
    FileIndexer::start(
        "repo",
        "/r",
        "src/lib.rs",
        "lib.rs",
        src.to_vec(),
        LangPack::Rust,
        dims,
        batch,
        "jina-embeddings-v4",
        "code.passage",
        FunctionAnchorRegistry::new(),
    )
}

fn run(a: IndexAction) -> String {
    match a {
        IndexAction::Run(s) => s,
        other => panic!("expected a statement, got {:?}", other),
    }
}

fn probe(a: IndexAction) -> String {
    match a {
        IndexAction::Probe(s) => s,
        other => panic!("expected a probe, got {:?}", other),
    }
}

fn stopped(a: IndexAction) -> String {
    match a {
        IndexAction::Stopped(s) => s,
        other => panic!("expected a stop, got {:?}", other),
    }
}

/// Walks the pending writes of a fresh file: nothing exists yet.
fn through_pending(ix: &mut FileIndexer) -> IndexAction {
    probe(ix.step(IndexEvent::Done));
    run(ix.step(IndexEvent::Probed(false)));
    probe(ix.step(IndexEvent::Done));
    run(ix.step(IndexEvent::Probed(false)));
    ix.step(IndexEvent::Done)
}

#[test]
fn file_run_issues_requests_in_order() {
    let units = extract_units("src/lib.rs", LangPack::Rust, SRC);
    assert_eq!(units.len(), 2);
    let (mut ix, first) = start(SRC.as_bytes(), 4, 8);
    assert_eq!(run(first), delete_file_derivatives_sql("repo", "src/lib.rs"));

    let doc = document_id("repo", "src/lib.rs");
    let fid = file_id("repo", "src/lib.rs");
    assert_eq!(
        probe(ix.step(IndexEvent::Done)),
        format!("MATCH (d:CodeDocument) WHERE d.id = \"{doc}\" RETURN 1 LIMIT 1;")
    );
    let pending_doc = run(ix.step(IndexEvent::Probed(false)));
    assert!(pending_doc.starts_with(&format!("CREATE (d:CodeDocument {{ id: \"{doc}\", repo_id: \"repo\"")));
    let md5 = md5_hex(SRC.as_bytes());
    assert_eq!(md5.len(), 32);
    assert!(pending_doc.contains(&format!("pending_source_hash: \"{md5}\", index_status: \"pending\"")));
    assert_eq!(
        probe(ix.step(IndexEvent::Done)),
        format!("MATCH (f:File) WHERE f.id = \"{fid}\" RETURN 1 LIMIT 1;")
    );
    let pending_file = run(ix.step(IndexEvent::Probed(true)));
    assert!(pending_file.starts_with(&format!("MATCH (f:File) WHERE f.id = \"{fid}\" SET f.repo_id = \"repo\"")));

    let passages = match ix.step(IndexEvent::Done) {
        IndexAction::Embed(p) => p,
        other => panic!("expected passages, got {:?}", other),
    };
    let expected: Vec<String> = units.iter().map(|u| trim_for_embedding(&u.source_text)).collect();
    assert_eq!(passages, expected);

    for (i, u) in units.iter().enumerate() {
        let (pk, label) = if u.target_table == "Class" {
            (class_id("repo", &u.signature), "Class")
        } else {
            (function_id("repo", &u.signature), "Function")
        };
        let name = short_tail_name(&u.qualified_name);
        let text = trim_for_embedding(&u.source_text);
        let node_probe = if i == 0 {
            probe(ix.step(IndexEvent::Embedded(vec![4, 4])))
        } else {
            probe(ix.step(IndexEvent::Probed(true)))
        };
        assert_eq!(node_probe, format!("MATCH (n:{label}) WHERE n.id = \"{pk}\" RETURN 1 LIMIT 1;"));
        let write = run(ix.step(IndexEvent::Probed(false)));
        let expected_write = if label == "Class" {
            class_node_sql(false, &pk, "repo", "src/lib.rs", &name, &u.qualified_name, &u.signature, &text)
        } else {
            function_node_sql(false, &pk, "repo", "src/lib.rs", &name, &u.qualified_name, &u.signature, &text, u.name_line)
        };
        assert_eq!(write, expected_write);
        let (dprobe, dcreate) = defines_sql(&fid, label, &pk);
        assert_eq!(probe(ix.step(IndexEvent::Done)), dprobe);
        assert_eq!(run(ix.step(IndexEvent::Probed(false))), dcreate);
        let cid = chunk_id("repo", u.target_kind, &u.signature, &text);
        assert_eq!(run(ix.step(IndexEvent::Done)), detach_chunk_sql(&cid));
        match ix.step(IndexEvent::Done) {
            IndexAction::InsertChunk { stmt, params, vector } => {
                let props = chunk_props("jina-embeddings-v4", "code.passage", u.target_kind, &u.signature, &u.qualified_name, u.name_line, 4);
                let (es, ep) = chunk_insert(&cid, "repo", "src/lib.rs", &name, &props, &text);
                assert_eq!(stmt, es);
                assert_eq!(params, ep);
                assert_eq!(vector, i);
            }
            other => panic!("expected a chunk insert, got {:?}", other),
        }
        let (cprobe, _ccreate) = describes_sql(&cid, label, &pk);
        assert_eq!(probe(ix.step(IndexEvent::Done)), cprobe);
    }

    let complete_doc = run(ix.step(IndexEvent::Probed(true)));
    assert!(complete_doc.starts_with(&format!("MATCH (d:CodeDocument) WHERE d.id = \"{doc}\" SET")));
    assert!(complete_doc.contains(&format!("d.source_hash = \"{md5}\", d.pending_source_hash = \"\", d.index_status = \"complete\"")));
    let complete_file = run(ix.step(IndexEvent::Done));
    assert!(complete_file.starts_with(&format!("MATCH (f:File) WHERE f.id = \"{fid}\" SET")));
    assert!(complete_file.contains("\\\"jina_fingerprint\\\":\\\"jina-embeddings-v4|code.passage|4\\\""));
    assert!(matches!(ix.step(IndexEvent::Done), IndexAction::Finished));
    assert!(matches!(ix.step(IndexEvent::Done), IndexAction::Finished));

    let function = units.iter().find(|u| u.target_table == "Function").unwrap();
    let registry = ix.into_registry();
    assert_eq!(registry.len(), 1);
    assert_eq!(
        registry.pk_for_path_line("src/lib.rs", function.name_line),
        Some(function_id("repo", &function.signature).as_str())
    );
}

#[test]
fn non_utf8_file_is_skipped() {
    let (mut ix, first) = start(&[0x66, 0xff, 0xfe], 4, 8);
    assert!(matches!(first, IndexAction::Finished));
    assert!(matches!(ix.step(IndexEvent::Done), IndexAction::Finished));
    assert_eq!(ix.into_registry().len(), 0);
}

#[test]
fn wrong_embedding_width_stops() {
    let units = extract_units("src/lib.rs", LangPack::Rust, SRC);
    let (mut ix, _) = start(SRC.as_bytes(), 4, 8);
    assert!(matches!(through_pending(&mut ix), IndexAction::Embed(_)));
    assert_eq!(
        stopped(ix.step(IndexEvent::Embedded(vec![3, 4]))),
        format!("embedding width 3 differs from configured 4 for {}", units[0].signature)
    );
    assert!(matches!(ix.step(IndexEvent::Done), IndexAction::Stopped(_)));
}

#[test]
fn zero_batch_size_stops_after_pending_marks() {
    let (mut ix, _) = start(SRC.as_bytes(), 4, 0);
    assert_eq!(stopped(through_pending(&mut ix)), "--batch-units must be positive");
}

#[test]
fn batches_follow_the_batch_size() {
    let (mut ix, _) = start(SRC.as_bytes(), 4, 1);
    match through_pending(&mut ix) {
        IndexAction::Embed(p) => assert_eq!(p.len(), 1),
        other => panic!("expected one passage, got {:?}", other),
    }
    // An answer with no vector for the batch's passage stops the run.
    assert_eq!(
        stopped(ix.step(IndexEvent::Embedded(vec![]))),
        "Jina embeddings count mismatch (expected 1, got 0)."
    );
    let (mut ix, _) = start(SRC.as_bytes(), 4, 8);
    through_pending(&mut ix);
    assert_eq!(
        stopped(ix.step(IndexEvent::Embedded(vec![4, 4, 4]))),
        "Jina embeddings count mismatch (expected 2, got 3)."
    );
}

#[test]
fn failures_name_the_request() {
    let (mut ix, _) = start(SRC.as_bytes(), 4, 8);
    assert_eq!(
        stopped(ix.step(IndexEvent::Failed("disk full".to_string()))),
        "delete_file_derivatives failed: disk full"
    );

    let (mut ix, _) = start(SRC.as_bytes(), 4, 8);
    probe(ix.step(IndexEvent::Done));
    run(ix.step(IndexEvent::Probed(true)));
    assert_eq!(
        stopped(ix.step(IndexEvent::Failed("e".to_string()))),
        "CodeDocument pending update failed: e"
    );

    let (mut ix, _) = start(SRC.as_bytes(), 4, 8);
    probe(ix.step(IndexEvent::Done));
    run(ix.step(IndexEvent::Probed(false)));
    assert_eq!(stopped(ix.step(IndexEvent::Failed("e".to_string()))), "CodeDocument create failed: e");

    let (mut ix, _) = start(SRC.as_bytes(), 4, 8);
    assert_eq!(stopped(ix.step(IndexEvent::Probed(true))), "unexpected answer to an indexing request");

    let units = extract_units("src/lib.rs", LangPack::Rust, SRC);
    let (mut ix, _) = start(SRC.as_bytes(), 4, 8);
    through_pending(&mut ix);
    probe(ix.step(IndexEvent::Embedded(vec![4, 4])));
    let pk = function_id("repo", &units[0].signature);
    let label = if units[0].target_table == "Class" { "Class" } else { "Function" };
    assert_eq!(
        stopped(ix.step(IndexEvent::Failed("x".to_string()))),
        format!("{label} existence probe failed for {pk}: x")
    );
}

fn md5_hex(bytes: &[u8]) -> String {
    format!("{:x}", md5::Md5::digest(bytes))
}

#[test]
fn file_hash_is_the_md5_of_its_bytes() {
    let (mut ix, _) = start(b"abc", 4, 8);
    probe(ix.step(IndexEvent::Done));
    let pending = run(ix.step(IndexEvent::Probed(false)));
    assert!(pending.contains("pending_source_hash: \"900150983cd24fb0d6963f7d28e17f72\""));
}
