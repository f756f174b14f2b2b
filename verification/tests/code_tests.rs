use am_workspace::code::{
    extract_units, fallback, language_for_extension, posix_rel, start_line_from_byte,
    unit_signature, LangPack,
};
use am_workspace::codegraph::{
    calls_sql, defines_sql, delete_file_derivatives_sql, esc_lit, jina_fingerprint_for_run,
    native_code_ddl, node_probe_sql, stored_visible_code, trim_for_embedding, upsert_node_sql,
};
use am_workspace::ids::{chunk_id, class_id, document_id, file_id, function_id};
use sha2::Digest;
use am_workspace::paths::{
    join_rel_paths, posix_path, posix_path_display, rel_path_posix, scip_index_candidates,
    short_tail_name,
};
use am_workspace::registry::FunctionAnchorRegistry;
use am_workspace::scip::{
    build_symbol_definition_anchors, calls_from_scip, is_local_symbol, nearest_caller_symbol,
    scip_call_edges, ScipDocument, ScipIndex, ScipOccurrence, ScipRelationship, ScipSymbol,
};

#[test]
fn normalizes_backslashes_in_path_key() {
    let mut r = FunctionAnchorRegistry::new();
    r.record_function_anchor("src\\foo\\bar.rs", 10, "function:x".into());
    assert_eq!(r.pk_for_path_line("src/foo/bar.rs", 10), Some("function:x"));
}

#[test]
fn registry_replaces_and_counts_keys() {
    let mut r = FunctionAnchorRegistry::new();
    assert_eq!(r.len(), 0);
    r.record_function_anchor("a.rs", 1, "f1".into());
    r.record_function_anchor("a.rs", 2, "f2".into());
    r.record_function_anchor("a.rs", 1, "f3".into());
    assert_eq!(r.len(), 2);
    assert_eq!(r.pk_for_path_line("a.rs", 1), Some("f3"));
    assert_eq!(r.pk_for_path_line("a.rs", 3), None);
}

#[test]
fn nearest_preceding_callable_partition() {
    let defs = [(5_usize, "a".to_string()), (20_usize, "b".to_string())];
    assert_eq!(nearest_caller_symbol(&defs, 3), None);
    assert_eq!(nearest_caller_symbol(&defs, 6), Some("a"));
    assert_eq!(nearest_caller_symbol(&defs, 26), Some("b"));
}

fn occ(symbol: &str, line0: i32, roles: i32) -> ScipOccurrence {
    ScipOccurrence { symbol: symbol.into(), range: vec![line0, 0, line0, 5], symbol_roles: roles }
}

#[test]
fn scip_calls_build_anchors_from_synthetic_index() {
    let idx = ScipIndex {
        documents: vec![ScipDocument {
            language: "rust".into(),
            relative_path: "src/lib.rs".into(),
            occurrences: vec![occ("testSymbolRust", 9, 1)],
            symbols: vec![],
        }],
    };
    let m = build_symbol_definition_anchors(&idx);
    assert_eq!(m.get("testSymbolRust"), Some(&("src/lib.rs".to_string(), 10usize)));
}

#[test]
fn anchors_skip_locals_references_and_other_languages() {
    let idx = ScipIndex {
        documents: vec![
            ScipDocument {
                language: "Rust".into(),
                relative_path: "src\\a.rs".into(),
                occurrences: vec![occ("local 1", 1, 1), occ("refOnly", 2, 0), occ("def", -3, 1)],
                symbols: vec![],
            },
            ScipDocument {
                language: "python".into(),
                relative_path: "x.py".into(),
                occurrences: vec![occ("py", 1, 1)],
                symbols: vec![],
            },
        ],
    };
    let m = build_symbol_definition_anchors(&idx);
    assert_eq!(m.get("def"), Some(&("src/a.rs".to_string(), 1usize)));
    assert!(m.get("local 1").is_none());
    assert!(m.get("refOnly").is_none());
    assert!(m.get("py").is_none());
    assert!(is_local_symbol("local 7"));
    assert!(!is_local_symbol("rust-analyzer cargo x"));
}

#[test]
fn call_edges_from_relationships_and_occurrences() {
    let doc = ScipDocument {
        language: "rust".into(),
        relative_path: "src/lib.rs".into(),
        occurrences: vec![occ("caller", 4, 1), occ("callee", 19, 1), occ("callee", 6, 0)],
        symbols: vec![
            ScipSymbol {
                symbol: "caller".into(),
                kind: 17,
                relationships: vec![ScipRelationship {
                    symbol: "callee".into(),
                    is_reference: true,
                    is_type_definition: false,
                }],
            },
            ScipSymbol { symbol: "callee".into(), kind: 17, relationships: vec![] },
        ],
    };
    let idx = ScipIndex { documents: vec![doc] };
    let mut reg = FunctionAnchorRegistry::new();
    reg.record_function_anchor("src/lib.rs", 5, "function:caller".into());
    reg.record_function_anchor("src/lib.rs", 20, "function:callee".into());
    let (edges, anchors) = scip_call_edges(&idx, &reg);
    assert_eq!(anchors, 2);
    let pair = ("function:caller".to_string(), "function:callee".to_string());
    assert_eq!(edges, vec![pair.clone(), pair]);
}

#[test]
fn scip_bytes_that_do_not_decode_are_refused() {
    let reg = FunctionAnchorRegistry::new();
    let err = calls_from_scip("x/index.scip", &[0xff, 0xff, 0xff], &reg).unwrap_err();
    assert!(err.starts_with("parse SCIP x/index.scip: "));
    let (edges, anchors) = calls_from_scip("x/index.scip", &[], &reg).unwrap();
    assert!(edges.is_empty());
    assert_eq!(anchors, 0);
}

#[test]
fn language_by_extension() {
    assert_eq!(language_for_extension("RS"), Some(LangPack::Rust));
    assert_eq!(language_for_extension("py"), Some(LangPack::Python));
    assert_eq!(language_for_extension("mjs"), Some(LangPack::JavaScript));
    assert_eq!(language_for_extension("ts"), Some(LangPack::TypeScript));
    assert_eq!(language_for_extension("tsx"), Some(LangPack::Tsx));
    assert_eq!(language_for_extension("md"), None);
}

#[test]
fn path_helpers() {
    assert_eq!(posix_rel("a\\b\\c.rs"), "a/b/c.rs");
    assert_eq!(posix_path("x\\y"), "x/y");
    assert_eq!(posix_path_display("x\\y"), "x/y");
    assert_eq!(unit_signature("src/a.rs", "f"), "src/a.rs:f");
    assert_eq!(short_tail_name("src/a.rs::Impl::run"), "run");
    assert_eq!(short_tail_name("plain"), "plain");
    assert_eq!(join_rel_paths("/repo", "src//a.rs"), "/repo/src/a.rs");
    assert_eq!(rel_path_posix("/repo", "/repo/src/a.rs"), Ok("src/a.rs".to_string()));
    assert_eq!(
        rel_path_posix("/repo", "/elsewhere/a.rs"),
        Err("file /elsewhere/a.rs not under repo root /repo".to_string())
    );
    assert_eq!(
        scip_index_candidates("/r", Some("/x/i.scip")),
        vec!["/x/i.scip", "/r/index.scip", "/r/target/index.scip", "/r/.scip/index.scip"]
    );
}

#[test]
fn start_lines_count_newlines() {
    assert_eq!(start_line_from_byte("a\nb\nc", 0), 1);
    assert_eq!(start_line_from_byte("a\nb\nc", 2), 2);
    assert_eq!(start_line_from_byte("a\nb\nc", 4), 3);
    assert_eq!(start_line_from_byte("é\nx", 1), 1);
    assert_eq!(start_line_from_byte("abc", 99), 1);
}

#[test]
fn rust_units_with_impl_qualification() {
    let src = "struct S;\nimpl S {\n    fn run(&self) {}\n}\nfn free() {}\n";
    let units = extract_units("src/a.rs", LangPack::Rust, src);
    let sigs: Vec<&str> = units.iter().map(|u| u.signature.as_str()).collect();
    assert_eq!(sigs, vec!["src/a.rs:class:S", "src/a.rs:S::run", "src/a.rs:free"]);
    assert_eq!(units[1].qualified_name, "src/a.rs::S::run");
    assert_eq!(units[1].name_line, 3);
    assert_eq!(units[1].source_text, "fn run(&self) {}");
    assert_eq!(units[0].target_table, "Class");
    assert_eq!(units[2].target_kind, "Function");
}

#[test]
fn python_units_nest_classes() {
    let src = "class A:\n    def m(self):\n        pass\n\ndef f():\n    pass\n";
    let units = extract_units("m.py", LangPack::Python, src);
    let qns: Vec<&str> = units.iter().map(|u| u.qualified_name.as_str()).collect();
    assert_eq!(qns, vec!["m.py::A", "m.py::A.m", "m.py::f"]);
}

#[test]
fn typescript_types_are_classes() {
    let src = "interface P { x: number }\nfunction g() {}\n";
    let units = extract_units("t.ts", LangPack::TypeScript, src);
    assert_eq!(units[0].signature, "t.ts:type:interface_declaration:P");
    assert_eq!(units[1].signature, "t.ts:g");
}

#[test]
fn files_without_units_fall_back() {
    let units = extract_units("src\\x.rs", LangPack::Rust, "// only a comment\n");
    assert_eq!(units.len(), 1);
    assert_eq!(units[0].signature, "src\\x.rs:__file_fallback__");
    assert_eq!(units[0].qualified_name, "src/x.rs::__file_fallback__");
    assert_eq!(units[0].name_line, 1);
    let broken = extract_units("b.rs", LangPack::Rust, "fn (");
    assert_eq!(broken[0].signature, "b.rs:__file_fallback__");
    assert_eq!(fallback("p", "s")[0].source_text, "s");
}

#[test]
fn ids_are_sha256_keyed() {
    let h = sha256_hex("abc");
    assert_eq!(h, "ba7816bf8f01cfea414140de5dae2223b00361a396177a9cb410ff61f20015ad");
    assert_eq!(file_id("r", "p"), format!("file:{}", sha256_hex("r:p")));
    assert_eq!(document_id("r", "p"), format!("code-document:{}", sha256_hex("r:p")));
    assert_eq!(function_id("r", "s"), format!("function:{}", sha256_hex("r:s")));
    assert_eq!(class_id("r", "s"), format!("class:{}", sha256_hex("r:s")));
    assert_eq!(chunk_id("r", "Function", "s", "t"), format!("chunk:{}", sha256_hex("r:Function:s:t")));
}

#[test]
fn cypher_texts() {
    assert_eq!(esc_lit("a\\\"b"), "a\\\\\\\"b");
    assert_eq!(stored_visible_code("a;b"), "a,b");
    assert_eq!(stored_visible_code(&"x".repeat(13000)).chars().count(), 12000);
    assert_eq!(trim_for_embedding(&"é".repeat(130000)).chars().count(), 120000);
    assert_eq!(jina_fingerprint_for_run("m", "t", 2048), "m|t|2048");
    assert_eq!(
        delete_file_derivatives_sql("r", "p"),
        "MATCH (ch:Chunk) WHERE ch.repo_id = \"r\" AND ch.path = \"p\" DETACH DELETE ch;MATCH (fn:Function) WHERE fn.repo_id = \"r\" AND fn.path = \"p\" DETACH DELETE fn;MATCH (c:Class) WHERE c.repo_id = \"r\" AND c.path = \"p\" DETACH DELETE c;"
    );
    assert_eq!(node_probe_sql("File", "f\"1"), "MATCH (n:File) WHERE n.id = \"f\\\"1\" RETURN 1 LIMIT 1;");
    let fields = vec![("name".to_string(), "n".to_string()), ("text".to_string(), "t".to_string())];
    assert_eq!(upsert_node_sql("Function", "k", &fields, true), "MATCH (n:Function) WHERE n.id = \"k\" SET n.name = \"n\", n.text = \"t\";");
    assert_eq!(upsert_node_sql("Function", "k", &fields, false), "CREATE (n:Function { id: \"k\", name: \"n\", text: \"t\" });");
    let (probe, create) = defines_sql("f1", "Class", "c1");
    assert_eq!(probe, "MATCH (f:File)-[:DEFINES]->(t:Class) WHERE f.id=\"f1\" AND t.id=\"c1\" RETURN 1 LIMIT 1;");
    assert_eq!(create, "MATCH (f:File), (t:Class) WHERE f.id=\"f1\" AND t.id=\"c1\" CREATE (f)-[:DEFINES { properties_json: \"{}\" }]->(t);");
    assert!(calls_sql("a", "a").is_none());
    assert!(calls_sql("a", "b").unwrap().1.contains("CREATE (caller)-[:CALLS"));
    let ddl = native_code_ddl(512);
    assert_eq!(ddl.len(), 10);
    assert!(ddl[4].contains("embedding FLOAT[512]"));
}

fn sha256_hex(text: &str) -> String {
    format!("{:x}", sha2::Sha256::digest(text.as_bytes()))
}
