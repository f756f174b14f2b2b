//! The Cypher statements and texts the repository indexer writes to the code graph:
//! escaped literals, stored and embedded code text, node upserts, the `DEFINES`,
//! `DESCRIBES` and `CALLS` edges, per-file cleanup, and the schema.
use vstd::prelude::*;

use crate::model::{cat, cat3, own};
use crate::text::{chars_of, decimal, fmt_usize, replace_char, replace_char_exec, string_of};

verus! {

/// Longest code text stored on a node, in characters.
pub const MAX_STORED_CODE_TEXT_CHARS: usize = 12000;

/// Longest text sent for embedding, in characters.
pub const MAX_EMBED_CHARS: usize = 120000;

/// Widest dense embedding of the Jina v4 ingest profile.
pub const JINA_EMBED_DIM_V4_MAX: usize = 2048;

/// `s` as the body of a Cypher string literal: `\` doubled, then `"` escaped.
pub open spec fn escaped(s: Seq<char>) -> Seq<char> {
    replace_char(replace_char(s, '\\', "\\\\"@), '"', "\\\""@)
}

/// Escapes `s` for a double-quoted Cypher literal.
pub fn esc_lit(s: &str) -> (r: String)
    ensures
        r@ == escaped(s@),
{
    let a = replace_char_exec(chars_of(s).as_slice(), '\\', chars_of("\\\\").as_slice());
    let b = replace_char_exec(a.as_slice(), '"', chars_of("\\\"").as_slice());
    string_of(&b)
}

/// At most the first `n` characters of `s`.
pub open spec fn first_chars(s: Seq<char>, n: nat) -> Seq<char> {
    if s.len() <= n {
        s
    } else {
        s.take(n as int)
    }
}

fn first_chars_exec(s: &str, n: usize) -> (r: Vec<char>)
    ensures
        r@ == first_chars(s@, n as nat),
{
    let v = chars_of(s);
    if v.len() <= n {
        v
    } else {
        let t = crate::text::sub_vec(v.as_slice(), 0, n);
        assert(t@ =~= v@.take(n as int));
        t
    }
}

/// The code text stored on a node: the first 12000 characters, `;` turned into `,`.
pub fn stored_visible_code(text_for_embedding: &str) -> (r: String)
    ensures
        r@ == replace_char(first_chars(text_for_embedding@, 12000), ';', ","@),
{
    let t = first_chars_exec(text_for_embedding, MAX_STORED_CODE_TEXT_CHARS);
    string_of(&replace_char_exec(t.as_slice(), ';', chars_of(",").as_slice()))
}

/// The text sent for embedding: the first 120000 characters.
pub fn trim_for_embedding(text_for_embedding: &str) -> (r: String)
    ensures
        r@ == first_chars(text_for_embedding@, 120000),
{
    string_of(&first_chars_exec(text_for_embedding, MAX_EMBED_CHARS))
}

/// The fingerprint of an embedding run: `model|task|dimensions`.
pub fn jina_fingerprint_for_run(model: &str, task: &str, dimensions: usize) -> (r: String)
    ensures
        r@ == model@ + "|"@ + task@ + "|"@ + decimal(dimensions as nat),
{
    let mut r = cat3(model, "|", task);
    r.append("|");
    r.append(string_of(&fmt_usize(dimensions)).as_str());
    r
}

/// `"s"` with `s` escaped.
pub open spec fn lit(s: Seq<char>) -> Seq<char> {
    "\""@ + escaped(s) + "\""@
}

/// Renders `s` as a double-quoted Cypher literal.
pub fn lit_exec(s: &str) -> (r: String)
    ensures
        r@ == lit(s@),
{
    cat3("\"", esc_lit(s).as_str(), "\"")
}

/// The statement removing the chunks, functions and classes of a file.
pub open spec fn delete_file_derivatives_stmt(repo_id: Seq<char>, rel_path: Seq<char>) -> Seq<char> {
    let r = escaped(repo_id);
    let p = escaped(rel_path);
    "MATCH (ch:Chunk) WHERE ch.repo_id = \""@ + r + "\" AND ch.path = \""@ + p
        + "\" DETACH DELETE ch;MATCH (fn:Function) WHERE fn.repo_id = \""@ + r
        + "\" AND fn.path = \""@ + p
        + "\" DETACH DELETE fn;MATCH (c:Class) WHERE c.repo_id = \""@ + r + "\" AND c.path = \""@
        + p + "\" DETACH DELETE c;"@
}

/// The statement removing the chunks, functions and classes of a file.
pub fn delete_file_derivatives_sql(repo_id: &str, rel_path: &str) -> (r: String)
    ensures
        r@ == delete_file_derivatives_stmt(repo_id@, rel_path@),
{
    let r = esc_lit(repo_id);
    let p = esc_lit(rel_path);
    let mut s = cat3("MATCH (ch:Chunk) WHERE ch.repo_id = \"", r.as_str(), "\" AND ch.path = \"");
    s.append(p.as_str());
    s.append("\" DETACH DELETE ch;MATCH (fn:Function) WHERE fn.repo_id = \"");
    s.append(r.as_str());
    s.append("\" AND fn.path = \"");
    s.append(p.as_str());
    s.append("\" DETACH DELETE fn;MATCH (c:Class) WHERE c.repo_id = \"");
    s.append(r.as_str());
    s.append("\" AND c.path = \"");
    s.append(p.as_str());
    s.append("\" DETACH DELETE c;");
    s
}

/// The statement removing a chunk by id.
pub fn detach_chunk_sql(chunk_id: &str) -> (r: String)
    ensures
        r@ == "MATCH (ch:Chunk) WHERE ch.id = \""@ + escaped(chunk_id@) + "\" DETACH DELETE ch;"@,
{
    cat3("MATCH (ch:Chunk) WHERE ch.id = \"", esc_lit(chunk_id).as_str(), "\" DETACH DELETE ch;")
}

/// The statement probing for a node of `label` with id `pk`.
pub fn node_probe_sql(label: &str, pk: &str) -> (r: String)
    ensures
        r@ == "MATCH (n:"@ + label@ + ") WHERE n.id = \""@ + escaped(pk@)
            + "\" RETURN 1 LIMIT 1;"@,
{
    let mut s = cat3("MATCH (n:", label, ") WHERE n.id = \"");
    s.append(esc_lit(pk).as_str());
    s.append("\" RETURN 1 LIMIT 1;");
    s
}

/// `col = "val"` assignments on `n`, comma-separated, values escaped.
pub open spec fn assignments(fields: Seq<(Seq<char>, Seq<char>)>) -> Seq<char>
    decreases fields.len(),
{
    if fields.len() == 0 {
        Seq::empty()
    } else if fields.len() == 1 {
        "n."@ + fields[0].0 + " = "@ + lit(fields[0].1)
    } else {
        assignments(fields.drop_last()) + ", "@ + "n."@ + fields.last().0 + " = "@ + lit(
            fields.last().1,
        )
    }
}

/// `col: "val"` properties, comma-separated, after the id property.
pub open spec fn properties(pk: Seq<char>, fields: Seq<(Seq<char>, Seq<char>)>) -> Seq<char>
    decreases fields.len(),
{
    if fields.len() == 0 {
        "id: "@ + lit(pk)
    } else {
        properties(pk, fields.drop_last()) + ", "@ + fields.last().0 + ": "@ + lit(fields.last().1)
    }
}

/// Mathematical value of column/value pairs.
pub open spec fn fields_view(v: Seq<(String, String)>) -> Seq<(Seq<char>, Seq<char>)> {
    v.map_values(|f: (String, String)| (f.0@, f.1@))
}

/// The statement that updates the node of `label` with id `pk` (when it exists) or
/// creates it, setting the given columns.
pub fn upsert_node_sql(label: &str, pk: &str, fields: &Vec<(String, String)>, exists: bool) -> (r:
    String)
    ensures
        exists ==> r@ == "MATCH (n:"@ + label@ + ") WHERE n.id = \""@ + escaped(pk@) + "\" SET "@
            + assignments(fields_view(fields@)) + ";"@,
        !exists ==> r@ == "CREATE (n:"@ + label@ + " { "@ + properties(pk@, fields_view(fields@))
            + " });"@,
{
    let ghost fv = fields_view(fields@);
    if exists {
        let mut body = String::new();
        let mut i: usize = 0;
        assert(fv.take(0) =~= Seq::<(Seq<char>, Seq<char>)>::empty());
        while i < fields.len()
            invariant
                i <= fields@.len(),
                fv == fields_view(fields@),
                body@ == assignments(fv.take(i as int)),
            decreases fields@.len() - i,
        {
            assert(fv.take(i + 1).drop_last() =~= fv.take(i as int));
            assert(fv.take(i + 1).last() == (fields@[i as int].0@, fields@[i as int].1@));
            if i > 0 {
                body.append(", ");
            } else {
                assert(body@ =~= Seq::<char>::empty());
            }
            body.append("n.");
            body.append(fields[i].0.as_str());
            body.append(" = ");
            body.append(lit_exec(fields[i].1.as_str()).as_str());
            i = i + 1;
        }
        assert(fv.take(fields@.len() as int) =~= fv);
        let mut s = cat3("MATCH (n:", label, ") WHERE n.id = \"");
        s.append(esc_lit(pk).as_str());
        s.append("\" SET ");
        s.append(body.as_str());
        s.append(";");
        s
    } else {
        let mut body = cat("id: ", lit_exec(pk).as_str());
        let mut i: usize = 0;
        assert(fv.take(0) =~= Seq::<(Seq<char>, Seq<char>)>::empty());
        while i < fields.len()
            invariant
                i <= fields@.len(),
                fv == fields_view(fields@),
                body@ == properties(pk@, fv.take(i as int)),
            decreases fields@.len() - i,
        {
            assert(fv.take(i + 1).drop_last() =~= fv.take(i as int));
            assert(fv.take(i + 1).last() == (fields@[i as int].0@, fields@[i as int].1@));
            body.append(", ");
            body.append(fields[i].0.as_str());
            body.append(": ");
            body.append(lit_exec(fields[i].1.as_str()).as_str());
            i = i + 1;
        }
        assert(fv.take(fields@.len() as int) =~= fv);
        let mut s = cat3("CREATE (n:", label, " { ");
        s.append(body.as_str());
        s.append(" });");
        s
    }
}

/// The statements of an idempotent edge `(from:from_label)-[:rel]->(to:to_label)`: the
/// probe, and the creation with empty properties.
pub open spec fn edge_probe(
    a: Seq<char>,
    from_label: Seq<char>,
    rel: Seq<char>,
    b: Seq<char>,
    to_label: Seq<char>,
    from_id: Seq<char>,
    to_id: Seq<char>,
) -> Seq<char> {
    "MATCH ("@ + a + ":"@ + from_label + ")-[:"@ + rel + "]->("@ + b + ":"@ + to_label + ") WHERE "@
        + a + ".id=\""@ + escaped(from_id) + "\" AND "@ + b + ".id=\""@ + escaped(to_id)
        + "\" RETURN 1 LIMIT 1;"@
}

/// The creation of an edge with empty properties.
pub open spec fn edge_create(
    a: Seq<char>,
    from_label: Seq<char>,
    rel: Seq<char>,
    b: Seq<char>,
    to_label: Seq<char>,
    from_id: Seq<char>,
    to_id: Seq<char>,
) -> Seq<char> {
    "MATCH ("@ + a + ":"@ + from_label + "), ("@ + b + ":"@ + to_label + ") WHERE "@ + a + ".id=\""@
        + escaped(from_id) + "\" AND "@ + b + ".id=\""@ + escaped(to_id) + "\" CREATE ("@ + a
        + ")-[:"@ + rel + " { properties_json: \"{}\" }]->("@ + b + ");"@
}

fn edge_sql(
    a: &str,
    from_label: &str,
    rel: &str,
    b: &str,
    to_label: &str,
    from_id: &str,
    to_id: &str,
) -> (r: (String, String))
    ensures
        r.0@ == edge_probe(a@, from_label@, rel@, b@, to_label@, from_id@, to_id@),
        r.1@ == edge_create(a@, from_label@, rel@, b@, to_label@, from_id@, to_id@),
{
    let f = esc_lit(from_id);
    let t = esc_lit(to_id);
    let mut p = cat3("MATCH (", a, ":");
    p.append(from_label);
    p.append(")-[:");
    p.append(rel);
    p.append("]->(");
    p.append(b);
    p.append(":");
    p.append(to_label);
    p.append(") WHERE ");
    p.append(a);
    p.append(".id=\"");
    p.append(f.as_str());
    p.append("\" AND ");
    p.append(b);
    p.append(".id=\"");
    p.append(t.as_str());
    p.append("\" RETURN 1 LIMIT 1;");
    let mut c = cat3("MATCH (", a, ":");
    c.append(from_label);
    c.append("), (");
    c.append(b);
    c.append(":");
    c.append(to_label);
    c.append(") WHERE ");
    c.append(a);
    c.append(".id=\"");
    c.append(f.as_str());
    c.append("\" AND ");
    c.append(b);
    c.append(".id=\"");
    c.append(t.as_str());
    c.append("\" CREATE (");
    c.append(a);
    c.append(")-[:");
    c.append(rel);
    c.append(" { properties_json: \"{}\" }]->(");
    c.append(b);
    c.append(");");
    (p, c)
}

/// Probe and creation of `(f:File)-[:DEFINES]->(t:target_label)`.
pub fn defines_sql(file_id: &str, target_label: &str, target_pk: &str) -> (r: (String, String))
    ensures
        r.0@ == edge_probe("f"@, "File"@, "DEFINES"@, "t"@, target_label@, file_id@, target_pk@),
        r.1@ == edge_create("f"@, "File"@, "DEFINES"@, "t"@, target_label@, file_id@, target_pk@),
{
    edge_sql("f", "File", "DEFINES", "t", target_label, file_id, target_pk)
}

/// Probe and creation of `(c:Chunk)-[:DESCRIBES]->(t:target_label)`.
pub fn describes_sql(chunk_id: &str, target_label: &str, target_pk: &str) -> (r: (String, String))
    ensures
        r.0@ == edge_probe("c"@, "Chunk"@, "DESCRIBES"@, "t"@, target_label@, chunk_id@, target_pk@),
        r.1@ == edge_create(
            "c"@,
            "Chunk"@,
            "DESCRIBES"@,
            "t"@,
            target_label@,
            chunk_id@,
            target_pk@,
        ),
{
    edge_sql("c", "Chunk", "DESCRIBES", "t", target_label, chunk_id, target_pk)
}

/// Probe and creation of `(caller:Function)-[:CALLS]->(callee:Function)`; none for a
/// function calling itself.
pub fn calls_sql(caller_id: &str, callee_id: &str) -> (r: Option<(String, String)>)
    ensures
        caller_id@ == callee_id@ ==> r is None,
        caller_id@ != callee_id@ ==> (r matches Some(p) && p.0@ == edge_probe(
            "caller"@,
            "Function"@,
            "CALLS"@,
            "callee"@,
            "Function"@,
            caller_id@,
            callee_id@,
        ) && p.1@ == edge_create(
            "caller"@,
            "Function"@,
            "CALLS"@,
            "callee"@,
            "Function"@,
            caller_id@,
            callee_id@,
        )),
{
    if crate::text::str_eq(caller_id, callee_id) {
        None
    } else {
        Some(edge_sql("caller", "Function", "CALLS", "callee", "Function", caller_id, callee_id))
    }
}

/// The code schema: node tables `CodeDocument`, `File`, `Function`, `Class` and `Chunk`
/// (its embedding `FLOAT[embed_dims]`), then the `DEFINES`, `IMPORTS`, `HAS_METHOD`,
/// `DESCRIBES` and `CALLS` relation tables.
pub fn native_code_ddl(embed_dims: usize) -> (r: Vec<String>)
    ensures
        r@.len() == 10,
        r@[4]@ == "CREATE NODE TABLE Chunk(\n  id STRING PRIMARY KEY,\n  repo_id STRING,\n  path STRING,\n  name STRING,\n  text STRING,\n  embedding FLOAT["@
            + decimal(embed_dims as nat) + "],\n  properties_json STRING\n);"@,
        r@[0]@ == "CREATE NODE TABLE CodeDocument(\n  id STRING PRIMARY KEY,\n  repo_id STRING,\n  path STRING,\n  name STRING,\n  source_hash STRING,\n  pending_source_hash STRING,\n  index_status STRING,\n  repo_root STRING,\n  metadata_json STRING,\n  updated_at STRING\n);"@,
        r@[1]@ == "CREATE NODE TABLE File(\n  id STRING PRIMARY KEY,\n  repo_id STRING,\n  path STRING,\n  name STRING,\n  text STRING,\n  properties_json STRING\n);"@,
        r@[2]@ == "CREATE NODE TABLE Function(\n  id STRING PRIMARY KEY,\n  repo_id STRING,\n  path STRING,\n  name STRING,\n  qualified_name STRING,\n  signature STRING,\n  docstring STRING,\n  text STRING,\n  properties_json STRING\n);"@,
        r@[3]@ == "CREATE NODE TABLE Class(\n  id STRING PRIMARY KEY,\n  repo_id STRING,\n  path STRING,\n  name STRING,\n  qualified_name STRING,\n  docstring STRING,\n  text STRING,\n  properties_json STRING\n);"@,
        r@[5]@ == "CREATE REL TABLE DEFINES(FROM File TO Function, FROM File TO Class, properties_json STRING, MANY_MANY);"@,
        r@[6]@ == "CREATE REL TABLE IMPORTS(FROM File TO File, properties_json STRING, MANY_MANY);"@,
        r@[7]@ == "CREATE REL TABLE HAS_METHOD(FROM Class TO Function, properties_json STRING, MANY_MANY);"@,
        r@[8]@ == "CREATE REL TABLE DESCRIBES(FROM Chunk TO Function, FROM Chunk TO Class, properties_json STRING, MANY_MANY);"@,
        r@[9]@ == "CREATE REL TABLE CALLS(FROM Function TO Function, properties_json STRING, MANY_MANY);"@,
{
    let mut chunk = cat(
        "CREATE NODE TABLE Chunk(\n  id STRING PRIMARY KEY,\n  repo_id STRING,\n  path STRING,\n  name STRING,\n  text STRING,\n  embedding FLOAT[",
        string_of(&fmt_usize(embed_dims)).as_str(),
    );
    chunk.append("],\n  properties_json STRING\n);");
    vec![
        own("CREATE NODE TABLE CodeDocument(\n  id STRING PRIMARY KEY,\n  repo_id STRING,\n  path STRING,\n  name STRING,\n  source_hash STRING,\n  pending_source_hash STRING,\n  index_status STRING,\n  repo_root STRING,\n  metadata_json STRING,\n  updated_at STRING\n);"),
        own("CREATE NODE TABLE File(\n  id STRING PRIMARY KEY,\n  repo_id STRING,\n  path STRING,\n  name STRING,\n  text STRING,\n  properties_json STRING\n);"),
        own("CREATE NODE TABLE Function(\n  id STRING PRIMARY KEY,\n  repo_id STRING,\n  path STRING,\n  name STRING,\n  qualified_name STRING,\n  signature STRING,\n  docstring STRING,\n  text STRING,\n  properties_json STRING\n);"),
        own("CREATE NODE TABLE Class(\n  id STRING PRIMARY KEY,\n  repo_id STRING,\n  path STRING,\n  name STRING,\n  qualified_name STRING,\n  docstring STRING,\n  text STRING,\n  properties_json STRING\n);"),
        chunk,
        own("CREATE REL TABLE DEFINES(FROM File TO Function, FROM File TO Class, properties_json STRING, MANY_MANY);"),
        own("CREATE REL TABLE IMPORTS(FROM File TO File, properties_json STRING, MANY_MANY);"),
        own("CREATE REL TABLE HAS_METHOD(FROM Class TO Function, properties_json STRING, MANY_MANY);"),
        own("CREATE REL TABLE DESCRIBES(FROM Chunk TO Function, FROM Chunk TO Class, properties_json STRING, MANY_MANY);"),
        own("CREATE REL TABLE CALLS(FROM Function TO Function, properties_json STRING, MANY_MANY);"),
    ]
}

} // verus!
