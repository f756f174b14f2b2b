use am_workspace::code_writes::{
    chunk_insert, chunk_props, class_node_sql, ddl_error_is_benign, document_complete_sql,
    document_pending_sql, file_complete_props, file_pending_props, file_upsert_sql,
    function_node_sql, mark_file_and_document_complete, read_snapshot, snapshot_sql,
    upsert_code_document_pending, upsert_file_pending, vector_index_error_is_benign,
};
use am_workspace::codegraph::stored_visible_code;
use sha2::Digest;

const META: &str = r#""{\"storage_mode\":\"native\",\"ingest\":\"jina-ladybug-repo-index\"}""#;

#[test]
fn document_pending_update_sets_every_column() {
    let s = document_pending_sql(true, "doc:1", "repo", "src/a.rs", "a", "h1", "/r", "T");
    let expected = format!(
        "MATCH (d:CodeDocument) WHERE d.id = \"doc:1\" SET d.repo_id = \"repo\", d.path = \"src/a.rs\", \
         d.name = \"a\", d.source_hash = \"\", d.pending_source_hash = \"h1\", d.index_status = \"pending\", \
         d.repo_root = \"/r\", d.metadata_json = {META}, d.updated_at = \"T\";"
    );
    assert_eq!(s, expected);
}

#[test]
fn document_pending_create_lists_id_first() {
    let s = document_pending_sql(false, "doc:1", "repo", "src/a.rs", "a", "h1", "/r", "T");
    let expected = format!(
        "CREATE (d:CodeDocument {{ id: \"doc:1\", repo_id: \"repo\", path: \"src/a.rs\", name: \"a\", \
         source_hash: \"\", pending_source_hash: \"h1\", index_status: \"pending\", repo_root: \"/r\", \
         metadata_json: {META}, updated_at: \"T\" }});"
    );
    assert_eq!(s, expected);
}

#[test]
fn document_complete_moves_hash_to_source() {
    let s = document_complete_sql("doc:1", "repo", "p", "a", "h1", "/r", "T");
    let expected = format!(
        "MATCH (d:CodeDocument) WHERE d.id = \"doc:1\" SET d.repo_id = \"repo\", d.path = \"p\", \
         d.name = \"a\", d.source_hash = \"h1\", d.pending_source_hash = \"\", d.index_status = \"complete\", \
         d.repo_root = \"/r\", d.metadata_json = {META}, d.updated_at = \"T\";"
    );
    assert_eq!(s, expected);
}

#[test]
fn document_literals_are_escaped() {
    let s = document_complete_sql("d\"x", "r\\1", "p", "a", "h", "/r", "T");
    assert!(s.starts_with("MATCH (d:CodeDocument) WHERE d.id = \"d\\\"x\" SET d.repo_id = \"r\\\\1\","));
}

#[test]
fn file_upsert_create_and_update() {
    assert_eq!(
        file_upsert_sql(false, "file:1", "repo", "src/a.rs", "a", "{}"),
        "CREATE (f:File { id: \"file:1\", repo_id: \"repo\", path: \"src/a.rs\", name: \"a\", \
         text: \"src/a.rs\", properties_json: \"{}\" });"
    );
    assert_eq!(
        file_upsert_sql(true, "file:1", "repo", "src/a.rs", "a", "{\"k\":1}"),
        "MATCH (f:File) WHERE f.id = \"file:1\" SET f.repo_id = \"repo\", f.path = \"src/a.rs\", \
         f.name = \"a\", f.text = \"src/a.rs\", f.properties_json = \"{\\\"k\\\":1}\";"
    );
}

#[test]
fn file_props_are_compact_json() {
    assert_eq!(
        file_pending_props("abc", "/r", "T"),
        r#"{"index_status":"pending","last_attempted_at":"T","ohash":"abc","pending_ohash":"abc","repo_root":"/r","storage_mode":"native"}"#
    );
    assert_eq!(
        file_complete_props("abc", "/r", "T", "m|t|8"),
        r#"{"index_status":"complete","jina_fingerprint":"m|t|8","last_indexed_at":"T","ohash":"abc","pending_ohash":"","repo_root":"/r","storage_mode":"native"}"#
    );
}

#[test]
fn function_node_create_carries_props() {
    let text = "fn f() { a; b }";
    let s = function_node_sql(false, "fn:1", "repo", "p", "f", "m::f", "fn f()", text, 3);
    let props = format!(
        r#"{{\"code_hash\":\"{}\",\"embedding_model\":\"jina-embeddings-v4\",\"embedding_task\":\"code.passage\",\"name_line\":3,\"signature\":\"fn f()\",\"storage_mode\":\"native\",\"text_truncated\":false}}"#,
        sha256_hex(text)
    );
    let expected = format!(
        "CREATE (n:Function {{ id: \"fn:1\", repo_id: \"repo\", path: \"p\", name: \"f\", \
         qualified_name: \"m::f\", signature: \"fn f()\", docstring: \"\", text: \"fn f() {{ a, b }}\", \
         properties_json: \"{props}\" }});"
    );
    assert_eq!(s, expected);
}

#[test]
fn function_node_flags_long_text() {
    let text = "x".repeat(12001);
    let s = function_node_sql(true, "fn:1", "repo", "p", "f", "f", "f", &text, 1);
    assert!(s.starts_with("MATCH (n:Function) WHERE n.id = \"fn:1\" SET n.repo_id = \"repo\""));
    assert!(s.contains("\\\"text_truncated\\\":true"));
    assert!(s.contains(&format!("n.text = \"{}\"", "x".repeat(12000))));
    assert!(!s.contains(&"x".repeat(12001)));
}

#[test]
fn class_node_update_has_no_name_line() {
    let text = "struct S;";
    let s = class_node_sql(true, "class:1", "repo", "p", "S", "m::S", "struct S", text);
    let props = format!(
        r#"{{\"code_hash\":\"{}\",\"embedding_model\":\"jina-embeddings-v4\",\"embedding_task\":\"code.passage\",\"signature\":\"struct S\",\"storage_mode\":\"native\",\"text_truncated\":false}}"#,
        sha256_hex(text)
    );
    let expected = format!(
        "MATCH (n:Class) WHERE n.id = \"class:1\" SET n.repo_id = \"repo\", n.path = \"p\", n.name = \"S\", \
         n.qualified_name = \"m::S\", n.docstring = \"\", n.text = \"struct S,\", n.properties_json = \"{props}\";"
    );
    assert_eq!(s, expected);
}

#[test]
fn chunk_props_json() {
    assert_eq!(
        chunk_props("jina-embeddings-v4", "code.passage", "Function", "sig", "q", 3, 2048),
        r#"{"dimensions":2048,"embedding_model":"jina-embeddings-v4","embedding_task":"code.passage","name_line":3,"qualified_name":"q","signature":"sig","storage_mode":"native","target_kind":"Function"}"#
    );
}

#[test]
fn chunk_insert_binds_stored_text() {
    let (stmt, params) = chunk_insert("chunk:1", "repo", "p", "f", "{}", "a;b");
    assert_eq!(
        stmt,
        "CREATE (n:Chunk {\n  id: $id,\n  repo_id: $repo_id,\n  path: $path,\n  name: $name,\n  text: $text,\n  embedding: $embedding,\n  properties_json: $properties_json\n});"
    );
    let names: Vec<&str> = params.iter().map(|(k, _)| k.as_str()).collect();
    assert_eq!(names, vec!["id", "repo_id", "path", "name", "text", "properties_json"]);
    assert_eq!(params[4].1, "a,b");
    assert_eq!(params[4].1, stored_visible_code("a;b"));
    assert_eq!(params[0].1, "chunk:1");
}

#[test]
fn snapshot_query_text() {
    assert_eq!(
        snapshot_sql("doc:1", "file:\"1"),
        "MATCH (d:CodeDocument), (f:File) WHERE d.id = \"doc:1\" AND f.id = \"file:\\\"1\" \
         RETURN d.source_hash, d.index_status, f.properties_json LIMIT 1;"
    );
}

#[test]
fn snapshot_reads_fingerprint() {
    let row = Some(vec![
        Some("h".to_string()),
        Some("complete".to_string()),
        Some(r#"{"jina_fingerprint":"m|t|8","ohash":"h"}"#.to_string()),
    ]);
    assert_eq!(
        read_snapshot(row),
        Some(("h".to_string(), "complete".to_string(), Some("m|t|8".to_string())))
    );
}

#[test]
fn snapshot_without_fingerprint() {
    let bad_json = Some(vec![Some("h".to_string()), Some("pending".to_string()), Some("not json".to_string())]);
    assert_eq!(read_snapshot(bad_json), Some(("h".to_string(), "pending".to_string(), None)));
    let number = Some(vec![Some("h".to_string()), Some("s".to_string()), Some(r#"{"jina_fingerprint":3}"#.to_string())]);
    assert_eq!(read_snapshot(number), Some(("h".to_string(), "s".to_string(), None)));
    let no_props = Some(vec![Some("h".to_string()), Some("s".to_string()), None]);
    assert_eq!(read_snapshot(no_props), Some(("h".to_string(), "s".to_string(), None)));
}

#[test]
fn snapshot_missing_parts() {
    assert_eq!(read_snapshot(None), None);
    assert_eq!(read_snapshot(Some(vec![Some("h".to_string()), Some("s".to_string())])), None);
    assert_eq!(read_snapshot(Some(vec![Some("h".to_string()), None, Some("{}".to_string())])), None);
    assert_eq!(read_snapshot(Some(vec![None, Some("s".to_string()), Some("{}".to_string())])), None);
}

#[test]
fn schema_errors_that_are_harmless() {
    assert!(ddl_error_is_benign("Binder exception: Table Chunk already exists."));
    assert!(!ddl_error_is_benign("Parser exception: invalid input"));
    assert!(vector_index_error_is_benign("Binder exception: Index code_chunk_embedding_index already exists"));
    assert!(!vector_index_error_is_benign("Table Chunk already exists"));
}

#[test]
fn stamped_writes_take_the_current_time() {
    let s = upsert_code_document_pending(true, "doc:1", "repo", "p", "a", "h1", "/r");
    assert!(s.starts_with("MATCH (d:CodeDocument) WHERE d.id = \"doc:1\" SET d.repo_id = \"repo\""));
    assert!(s.contains("d.index_status = \"pending\""));
    assert!(s.contains("d.updated_at = \"20"));
    let f = upsert_file_pending(false, "file:1", "repo", "p", "a", "h1", "/r");
    assert!(f.starts_with("CREATE (f:File { id: \"file:1\""));
    assert!(f.contains("\\\"last_attempted_at\\\":\\\"20"));
    let (d, f2) = mark_file_and_document_complete("doc:1", "file:1", "repo", "p", "a", "h1", "/r", "m|t|8");
    assert!(d.contains("d.source_hash = \"h1\", d.pending_source_hash = \"\", d.index_status = \"complete\""));
    assert!(f2.starts_with("MATCH (f:File) WHERE f.id = \"file:1\" SET"));
    assert!(f2.contains("\\\"jina_fingerprint\\\":\\\"m|t|8\\\""));
}

fn sha256_hex(text: &str) -> String {
    format!("{:x}", sha2::Sha256::digest(text.as_bytes()))
}

#[test]
fn pending_statements_stamp_an_rfc3339_utc_time() {
    let s = upsert_code_document_pending(true, "doc:1", "repo", "p", "a", "h1", "/r");
    let start = s.find("d.updated_at = \"").unwrap() + "d.updated_at = \"".len();
    let stamp: String = s[start..].chars().take_while(|c| *c != '"').collect();
    assert_eq!(stamp.len(), 20);
    let b = stamp.as_bytes();
    assert_eq!((b[4], b[7], b[10], b[13], b[16], b[19]), (b'-', b'-', b'T', b':', b':', b'Z'));
    assert!(stamp.chars().all(|c| c.is_ascii_digit() || "-+:TZ".contains(c)));
}
