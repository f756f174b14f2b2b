//! The writes the repository indexer makes for one file: the pending and completed
//! `CodeDocument` and `File` rows, the `Function` and `Class` nodes with their JSON
//! properties, the chunk properties and insert parameters, the snapshot read back before
//! a file is indexed again, and which schema errors are harmless.
use vstd::prelude::*;

use crate::codegraph::{
    assignments, esc_lit, escaped, fields_view, first_chars, lit, lit_exec, properties,
    stored_visible_code,
    upsert_node_sql,
};
use crate::ids::{sha256_hex_of, sha256_hex_utf8};
use crate::model::{cat3, own};
use crate::text::{chars_of, contains, contains_exec, replace_char};

verus! {

/// The JSON object text `serde_json` writes for the given string, string-list, count and
/// flag members.
pub uninterp spec fn json_document_text(
    texts: Seq<(Seq<char>, Seq<char>)>,
    lists: Seq<(Seq<char>, Seq<Seq<char>>)>,
    counts: Seq<(Seq<char>, u64)>,
    flags: Seq<(Seq<char>, bool)>,
) -> Seq<char>;

/// The JSON object text for string, count and flag members.
pub open spec fn json_object_text(
    texts: Seq<(Seq<char>, Seq<char>)>,
    counts: Seq<(Seq<char>, u64)>,
    flags: Seq<(Seq<char>, bool)>,
) -> Seq<char> {
    json_document_text(texts, Seq::empty(), counts, flags)
}

/// Mathematical value of text members.
pub open spec fn text_members(v: Seq<(String, String)>) -> Seq<(Seq<char>, Seq<char>)> {
    v.map_values(|m: (String, String)| (m.0@, m.1@))
}

/// Mathematical value of count members.
pub open spec fn count_members(v: Seq<(String, u64)>) -> Seq<(Seq<char>, u64)> {
    v.map_values(|m: (String, u64)| (m.0@, m.1))
}

/// Mathematical value of flag members.
pub open spec fn flag_members(v: Seq<(String, bool)>) -> Seq<(Seq<char>, bool)> {
    v.map_values(|m: (String, bool)| (m.0@, m.1))
}

/// Mathematical value of string-list members.
pub open spec fn list_members(v: Seq<(String, Vec<String>)>) -> Seq<(Seq<char>, Seq<Seq<char>>)> {
    v.map_values(|m: (String, Vec<String>)| (m.0@, m.1@.map_values(|x: String| x@)))
}

/// `serde_json::Value::Object` of the members (strings, string arrays, numbers, then
/// booleans), written compactly with `to_string`. The text is a function of the members.
#[verifier::external_body]
pub(crate) fn json_object(
    texts: Vec<(String, String)>,
    lists: Vec<(String, Vec<String>)>,
    counts: Vec<(String, u64)>,
    flags: Vec<(String, bool)>,
) -> (r: String)
    ensures
        r@ == json_document_text(
            text_members(texts@),
            list_members(lists@),
            count_members(counts@),
            flag_members(flags@),
        ),
{
    let mut m = serde_json::Map::new();
    m.extend(texts.into_iter().map(|(k, v)| (k, serde_json::Value::String(v))));
    m.extend(lists.into_iter().map(|(k, v)| (k, serde_json::Value::from(v))));
    m.extend(counts.into_iter().map(|(k, v)| (k, serde_json::Value::from(v))));
    m.extend(flags.into_iter().map(|(k, v)| (k, serde_json::Value::Bool(v))));
    serde_json::Value::Object(m).to_string()
}

fn no_lists() -> (r: Vec<(String, Vec<String>)>)
    ensures
        list_members(r@) == Seq::<(Seq<char>, Seq<Seq<char>>)>::empty(),
{
    let r: Vec<(String, Vec<String>)> = Vec::new();
    assert(list_members(r@) =~= Seq::<(Seq<char>, Seq<Seq<char>>)>::empty());
    r
}

/// The string member `key` of the JSON object `text`, when `text` parses as an object
/// with a string at `key`.
pub uninterp spec fn json_string_member(text: Seq<char>, key: Seq<char>) -> Option<Seq<char>>;

/// `serde_json::from_str::<serde_json::Value>`, then `get(key)` and `as_str`.
#[verifier::external_body]
fn json_string_field(text: &str, key: &str) -> (r: Option<String>)
    ensures
        match r {
            Some(s) => json_string_member(text@, key@) == Some(s@),
            None => json_string_member(text@, key@) is None,
        },
{
    serde_json::from_str::<serde_json::Value>(text).ok()?.get(key)?.as_str().map(String::from)
}

/// A character of the RFC 3339 text of a UTC time to the second.
pub open spec fn rfc3339_char(c: char) -> bool {
    ('0' <= c && c <= '9') || c == '-' || c == '+' || c == ':' || c == 'T' || c == 'Z'
}

/// The shape of the text `to_rfc3339_opts(SecondsFormat::Secs, true)` writes for a UTC
/// time: the year (four digits, or a sign and at least four digits outside the years 0 to
/// 9999), then `-MM-DDTHH:MM:SS` and `Z`; digits, `+`, `-`, `:`, `T` and `Z` only.
pub open spec fn rfc3339_secs_shape(s: Seq<char>) -> bool {
    &&& s.len() >= 20
    &&& s[s.len() - 16] == '-' && s[s.len() - 13] == '-' && s[s.len() - 10] == 'T'
    &&& s[s.len() - 7] == ':' && s[s.len() - 4] == ':' && s[s.len() - 1] == 'Z'
    &&& forall|i: int| 0 <= i < s.len() ==> rfc3339_char(#[trigger] s[i])
}

/// `chrono::Utc::now().to_rfc3339_opts(SecondsFormat::Secs, true)`: the current time.
/// Which time it is depends on the clock and is not stated; what is stated is the shape
/// chrono's writer gives every UTC time (`write_rfc3339`: the year, then two-digit month,
/// day, hour, minute and second with their separators, and `Z` for the zero offset).
#[verifier::external_body]
pub(crate) fn now_rfc3339_secs() -> (r: String)
    ensures
        rfc3339_secs_shape(r@),
{
    chrono::Utc::now().to_rfc3339_opts(chrono::SecondsFormat::Secs, true)
}

/// The metadata every `CodeDocument` row of this indexer carries.
pub open spec fn document_meta() -> Seq<char> {
    "{\"storage_mode\":\"native\",\"ingest\":\"jina-ladybug-repo-index\"}"@
}

/// `v.k = value` for each member, separated by `, `.
pub open spec fn set_list(v: Seq<char>, members: Seq<(Seq<char>, Seq<char>)>) -> Seq<char>
    decreases members.len(),
{
    if members.len() == 0 {
        Seq::empty()
    } else if members.len() == 1 {
        v + "."@ + members[0].0 + " = "@ + members[0].1
    } else {
        set_list(v, members.drop_last()) + ", "@ + v + "."@ + members.last().0 + " = "@
            + members.last().1
    }
}

/// `k: value` for each member, separated by `, `.
pub open spec fn prop_list(members: Seq<(Seq<char>, Seq<char>)>) -> Seq<char>
    decreases members.len(),
{
    if members.len() == 0 {
        Seq::empty()
    } else if members.len() == 1 {
        members[0].0 + ": "@ + members[0].1
    } else {
        prop_list(members.drop_last()) + ", "@ + members.last().0 + ": "@ + members.last().1
    }
}

fn render_list(v: Option<&str>, members: &Vec<(String, String)>) -> (r: String)
    ensures
        r@ == match v {
            Some(var) => set_list(var@, text_members(members@)),
            None => prop_list(text_members(members@)),
        },
{
    let ghost mv = text_members(members@);
    let mut out = String::new();
    let mut i: usize = 0;
    assert(mv.take(0) =~= Seq::<(Seq<char>, Seq<char>)>::empty());
    while i < members.len()
        invariant
            i <= members@.len(),
            mv == text_members(members@),
            out@ == match v {
                Some(var) => set_list(var@, mv.take(i as int)),
                None => prop_list(mv.take(i as int)),
            },
        decreases members@.len() - i,
    {
        assert(mv.take(i + 1).drop_last() =~= mv.take(i as int));
        assert(mv.take(i + 1).last() == (members@[i as int].0@, members@[i as int].1@));
        if i > 0 {
            out.append(", ");
        } else {
            assert(out@ =~= Seq::<char>::empty());
        }
        match v {
            Some(var) => {
                out.append(var);
                out.append(".");
                out.append(members[i].0.as_str());
                out.append(" = ");
            },
            None => {
                out.append(members[i].0.as_str());
                out.append(": ");
            },
        }
        out.append(members[i].1.as_str());
        i = i + 1;
    }
    assert(mv.take(members@.len() as int) =~= mv);
    out
}

/// The members of a `CodeDocument` row, values as literals: repository, path, name,
/// source hash, pending hash, status, repository root, metadata and update time.
pub open spec fn document_members(
    repo_id: Seq<char>,
    rel_path: Seq<char>,
    name: Seq<char>,
    source_hash: Seq<char>,
    pending_hash: Seq<char>,
    status: Seq<char>,
    repo_root: Seq<char>,
    updated: Seq<char>,
) -> Seq<(Seq<char>, Seq<char>)> {
    seq![
        ("repo_id"@, lit(repo_id)),
        ("path"@, lit(rel_path)),
        ("name"@, lit(name)),
        ("source_hash"@, lit(source_hash)),
        ("pending_source_hash"@, lit(pending_hash)),
        ("index_status"@, lit(status)),
        ("repo_root"@, lit(repo_root)),
        ("metadata_json"@, lit(document_meta())),
        ("updated_at"@, lit(updated)),
    ]
}

fn document_members_exec(
    repo_id: &str,
    rel_path: &str,
    name: &str,
    source_hash: &str,
    pending_hash: &str,
    status: &str,
    repo_root: &str,
    updated: &str,
) -> (r: Vec<(String, String)>)
    ensures
        text_members(r@) == document_members(
            repo_id@,
            rel_path@,
            name@,
            source_hash@,
            pending_hash@,
            status@,
            repo_root@,
            updated@,
        ),
{
    let meta = "{\"storage_mode\":\"native\",\"ingest\":\"jina-ladybug-repo-index\"}";
    let r = vec![
        (own("repo_id"), lit_exec(repo_id)),
        (own("path"), lit_exec(rel_path)),
        (own("name"), lit_exec(name)),
        (own("source_hash"), lit_exec(source_hash)),
        (own("pending_source_hash"), lit_exec(pending_hash)),
        (own("index_status"), lit_exec(status)),
        (own("repo_root"), lit_exec(repo_root)),
        (own("metadata_json"), lit_exec(meta)),
        (own("updated_at"), lit_exec(updated)),
    ];
    assert(text_members(r@) =~= document_members(
        repo_id@,
        rel_path@,
        name@,
        source_hash@,
        pending_hash@,
        status@,
        repo_root@,
        updated@,
    ));
    r
}

/// The update of the `CodeDocument` row `id` (when `exists`) or its creation, with the
/// given members.
pub open spec fn document_write(exists: bool, id: Seq<char>, members: Seq<(Seq<char>, Seq<char>)>) -> Seq<char> {
    if exists {
        "MATCH (d:CodeDocument) WHERE d.id = "@ + lit(id) + " SET "@ + set_list("d"@, members) + ";"@
    } else {
        "CREATE (d:CodeDocument { "@ + prop_list(seq![("id"@, lit(id))] + members) + " });"@
    }
}

/// The statement marking a `CodeDocument` pending with hash `ohash`, updated at `updated`.
pub open spec fn document_pending_stmt(
    exists: bool,
    id: Seq<char>,
    repo_id: Seq<char>,
    rel_path: Seq<char>,
    name: Seq<char>,
    ohash: Seq<char>,
    repo_root: Seq<char>,
    updated: Seq<char>,
) -> Seq<char> {
    document_write(
        exists,
        id,
        document_members(repo_id, rel_path, name, Seq::empty(), ohash, "pending"@, repo_root, updated),
    )
}

/// The statement marking a `CodeDocument` complete with source hash `ohash`, updated at
/// `updated`.
pub open spec fn document_complete_stmt(
    id: Seq<char>,
    repo_id: Seq<char>,
    rel_path: Seq<char>,
    name: Seq<char>,
    ohash: Seq<char>,
    repo_root: Seq<char>,
    updated: Seq<char>,
) -> Seq<char> {
    document_write(
        true,
        id,
        document_members(repo_id, rel_path, name, ohash, Seq::empty(), "complete"@, repo_root, updated),
    )
}

/// The statement that marks a file's `CodeDocument` pending with hash `ohash`: an update
/// of the row when it exists, else its creation; the stored source hash is emptied.
pub fn document_pending_sql(
    exists: bool,
    id: &str,
    repo_id: &str,
    rel_path: &str,
    name: &str,
    ohash: &str,
    repo_root: &str,
    updated: &str,
) -> (r: String)
    ensures
        r@ == document_pending_stmt(exists, id@, repo_id@, rel_path@, name@, ohash@, repo_root@, updated@),
{
    proof {
        reveal_strlit("");
    }
    let members = document_members_exec(repo_id, rel_path, name, "", ohash, "pending", repo_root, updated);
    if exists {
        let mut s = cat3("MATCH (d:CodeDocument) WHERE d.id = ", lit_exec(id).as_str(), " SET ");
        s.append(render_list(Some("d"), &members).as_str());
        s.append(";");
        s
    } else {
        let mut all = vec![(own("id"), lit_exec(id))];
        let ghost first = text_members(all@);
        assert(first =~= seq![("id"@, lit(id@))]);
        let mut rest = members;
        all.append(&mut rest);
        assert(text_members(all@) =~= first + document_members(
            repo_id@,
            rel_path@,
            name@,
            ""@,
            ohash@,
            "pending"@,
            repo_root@,
            updated@,
        ));
        let mut s = own("CREATE (d:CodeDocument { ");
        s.append(render_list(None, &all).as_str());
        s.append(" });");
        s
    }
}

/// The statement that marks a file's `CodeDocument` complete: its source hash set to
/// `ohash`, the pending hash emptied.
pub fn document_complete_sql(
    doc_id: &str,
    repo_id: &str,
    rel_path: &str,
    name: &str,
    ohash: &str,
    repo_root: &str,
    updated: &str,
) -> (r: String)
    ensures
        r@ == document_complete_stmt(doc_id@, repo_id@, rel_path@, name@, ohash@, repo_root@, updated@),
{
    proof {
        reveal_strlit("");
    }
    let members = document_members_exec(repo_id, rel_path, name, ohash, "", "complete", repo_root, updated);
    let mut s = cat3("MATCH (d:CodeDocument) WHERE d.id = ", lit_exec(doc_id).as_str(), " SET ");
    s.append(render_list(Some("d"), &members).as_str());
    s.append(";");
    s
}

/// The members of a `File` row, values as literals: repository, path, name, the path
/// again as its text, and the properties.
pub open spec fn file_members(
    repo_id: Seq<char>,
    rel_path: Seq<char>,
    name: Seq<char>,
    props: Seq<char>,
) -> Seq<(Seq<char>, Seq<char>)> {
    seq![
        ("repo_id"@, lit(repo_id)),
        ("path"@, lit(rel_path)),
        ("name"@, lit(name)),
        ("text"@, lit(rel_path)),
        ("properties_json"@, lit(props)),
    ]
}

/// The update of the `File` row `id` (when `exists`) or its creation, with the given
/// properties.
pub open spec fn file_write(
    exists: bool,
    id: Seq<char>,
    repo_id: Seq<char>,
    rel_path: Seq<char>,
    name: Seq<char>,
    props: Seq<char>,
) -> Seq<char> {
    if exists {
        "MATCH (f:File) WHERE f.id = "@ + lit(id) + " SET "@ + set_list("f"@, file_members(repo_id, rel_path, name, props))
            + ";"@
    } else {
        "CREATE (f:File { "@ + prop_list(seq![("id"@, lit(id))] + file_members(repo_id, rel_path, name, props))
            + " });"@
    }
}

/// The statement that writes a `File` row with the given properties: an update when it
/// exists, else its creation.
pub fn file_upsert_sql(exists: bool, id: &str, repo_id: &str, rel_path: &str, name: &str, props: &str) -> (r:
    String)
    ensures
        r@ == file_write(exists, id@, repo_id@, rel_path@, name@, props@),
{
    let members = vec![
        (own("repo_id"), lit_exec(repo_id)),
        (own("path"), lit_exec(rel_path)),
        (own("name"), lit_exec(name)),
        (own("text"), lit_exec(rel_path)),
        (own("properties_json"), lit_exec(props)),
    ];
    assert(text_members(members@) =~= file_members(repo_id@, rel_path@, name@, props@));
    if exists {
        let mut s = cat3("MATCH (f:File) WHERE f.id = ", lit_exec(id).as_str(), " SET ");
        s.append(render_list(Some("f"), &members).as_str());
        s.append(";");
        s
    } else {
        let mut all = vec![(own("id"), lit_exec(id))];
        let ghost first = text_members(all@);
        assert(first =~= seq![("id"@, lit(id@))]);
        let mut rest = members;
        all.append(&mut rest);
        assert(text_members(all@) =~= first + file_members(repo_id@, rel_path@, name@, props@));
        let mut s = own("CREATE (f:File { ");
        s.append(render_list(None, &all).as_str());
        s.append(" });");
        s
    }
}

/// The properties of a `File` row while it is indexed, attempted at time `t`.
pub open spec fn pending_file_props(ohash: Seq<char>, repo_root: Seq<char>, t: Seq<char>) -> Seq<char> {
    json_object_text(
        seq![
            ("ohash"@, ohash),
            ("pending_ohash"@, ohash),
            ("index_status"@, "pending"@),
            ("repo_root"@, repo_root),
            ("last_attempted_at"@, t),
            ("storage_mode"@, "native"@),
        ],
        Seq::empty(),
        Seq::empty(),
    )
}

/// The properties of a `File` row indexed at time `t` by the embedding run `fingerprint`.
pub open spec fn complete_file_props(
    ohash: Seq<char>,
    repo_root: Seq<char>,
    t: Seq<char>,
    fingerprint: Seq<char>,
) -> Seq<char> {
    json_object_text(
        seq![
            ("ohash"@, ohash),
            ("pending_ohash"@, Seq::empty()),
            ("index_status"@, "complete"@),
            ("repo_root"@, repo_root),
            ("last_indexed_at"@, t),
            ("storage_mode"@, "native"@),
            ("jina_fingerprint"@, fingerprint),
        ],
        Seq::empty(),
        Seq::empty(),
    )
}

/// The properties of a `File` row while it is indexed.
pub fn file_pending_props(ohash: &str, repo_root: &str, attempted_at: &str) -> (r: String)
    ensures
        r@ == pending_file_props(ohash@, repo_root@, attempted_at@),
{
    let texts = vec![
        (own("ohash"), own(ohash)),
        (own("pending_ohash"), own(ohash)),
        (own("index_status"), own("pending")),
        (own("repo_root"), own(repo_root)),
        (own("last_attempted_at"), own(attempted_at)),
        (own("storage_mode"), own("native")),
    ];
    let counts: Vec<(String, u64)> = Vec::new();
    let flags: Vec<(String, bool)> = Vec::new();
    assert(count_members(counts@) =~= Seq::<(Seq<char>, u64)>::empty());
    assert(flag_members(flags@) =~= Seq::<(Seq<char>, bool)>::empty());
    assert(text_members(texts@) =~= seq![
        ("ohash"@, ohash@),
        ("pending_ohash"@, ohash@),
        ("index_status"@, "pending"@),
        ("repo_root"@, repo_root@),
        ("last_attempted_at"@, attempted_at@),
        ("storage_mode"@, "native"@),
    ]);
    json_object(texts, no_lists(), counts, flags)
}

/// The properties of a `File` row once indexed, with the fingerprint of the embedding run.
pub fn file_complete_props(ohash: &str, repo_root: &str, indexed_at: &str, jina_fingerprint: &str) -> (r:
    String)
    ensures
        r@ == complete_file_props(ohash@, repo_root@, indexed_at@, jina_fingerprint@),
{
    let texts = vec![
        (own("ohash"), own(ohash)),
        (own("pending_ohash"), String::new()),
        (own("index_status"), own("complete")),
        (own("repo_root"), own(repo_root)),
        (own("last_indexed_at"), own(indexed_at)),
        (own("storage_mode"), own("native")),
        (own("jina_fingerprint"), own(jina_fingerprint)),
    ];
    let counts: Vec<(String, u64)> = Vec::new();
    let flags: Vec<(String, bool)> = Vec::new();
    assert(count_members(counts@) =~= Seq::<(Seq<char>, u64)>::empty());
    assert(flag_members(flags@) =~= Seq::<(Seq<char>, bool)>::empty());
    assert(text_members(texts@) =~= seq![
        ("ohash"@, ohash@),
        ("pending_ohash"@, Seq::<char>::empty()),
        ("index_status"@, "complete"@),
        ("repo_root"@, repo_root@),
        ("last_indexed_at"@, indexed_at@),
        ("storage_mode"@, "native"@),
        ("jina_fingerprint"@, jina_fingerprint@),
    ]);
    json_object(texts, no_lists(), counts, flags)
}

/// Whether a schema statement failed only because what it creates is there already.
pub fn ddl_error_is_benign(message: &str) -> (r: bool)
    ensures
        r == contains(message@, "already exists"@),
{
    contains_exec(chars_of(message).as_slice(), chars_of("already exists").as_slice())
}

/// Whether creating the chunk vector index failed only because the index is there.
pub fn vector_index_error_is_benign(message: &str) -> (r: bool)
    ensures
        r == (contains(message@, "code_chunk_embedding_index already exists"@) || contains(
            message@,
            "Index code_chunk_embedding_index already exists"@,
        )),
{
    let m = chars_of(message);
    contains_exec(m.as_slice(), chars_of("code_chunk_embedding_index already exists").as_slice())
        || contains_exec(m.as_slice(), chars_of("Index code_chunk_embedding_index already exists").as_slice())
}

/// The code text stored on a node for `text`: its first 12000 characters, `;` as `,`.
pub open spec fn stored_text(text: Seq<char>) -> Seq<char> {
    replace_char(first_chars(text, 12000), ';', ","@)
}

/// The string members shared by the properties of `Function` and `Class` nodes.
pub open spec fn node_text_props(signature: Seq<char>, text: Seq<char>) -> Seq<(Seq<char>, Seq<char>)> {
    seq![
        ("code_hash"@, sha256_hex_of(text)),
        ("signature"@, signature),
        ("embedding_model"@, "jina-embeddings-v4"@),
        ("embedding_task"@, "code.passage"@),
        ("storage_mode"@, "native"@),
    ]
}

/// Whether the stored text of `text` was cut short.
pub open spec fn truncated_flag(text: Seq<char>) -> Seq<(Seq<char>, bool)> {
    seq![("text_truncated"@, text.len() > 12000)]
}

/// The JSON properties of a `Function` node.
pub open spec fn function_props(signature: Seq<char>, text: Seq<char>, name_line: u64) -> Seq<char> {
    json_object_text(node_text_props(signature, text), seq![("name_line"@, name_line)], truncated_flag(text))
}

/// The JSON properties of a `Class` node.
pub open spec fn class_props(signature: Seq<char>, text: Seq<char>) -> Seq<char> {
    json_object_text(node_text_props(signature, text), Seq::empty(), truncated_flag(text))
}

/// The columns written on a `Function` node.
pub open spec fn function_fields(
    repo_id: Seq<char>,
    rel_path: Seq<char>,
    name: Seq<char>,
    qualified_name: Seq<char>,
    signature: Seq<char>,
    text: Seq<char>,
    name_line: u64,
) -> Seq<(Seq<char>, Seq<char>)> {
    seq![
        ("repo_id"@, repo_id),
        ("path"@, rel_path),
        ("name"@, name),
        ("qualified_name"@, qualified_name),
        ("signature"@, signature),
        ("docstring"@, Seq::empty()),
        ("text"@, stored_text(text)),
        ("properties_json"@, function_props(signature, text, name_line)),
    ]
}

/// The columns written on a `Class` node.
pub open spec fn class_fields(
    repo_id: Seq<char>,
    rel_path: Seq<char>,
    name: Seq<char>,
    qualified_name: Seq<char>,
    signature: Seq<char>,
    text: Seq<char>,
) -> Seq<(Seq<char>, Seq<char>)> {
    seq![
        ("repo_id"@, repo_id),
        ("path"@, rel_path),
        ("name"@, name),
        ("qualified_name"@, qualified_name),
        ("docstring"@, Seq::empty()),
        ("text"@, stored_text(text)),
        ("properties_json"@, class_props(signature, text)),
    ]
}

/// The update (when the node exists) or creation of node `label` with id `pk`.
pub open spec fn upsert_stmt(label: Seq<char>, pk: Seq<char>, fields: Seq<(Seq<char>, Seq<char>)>, exists: bool) -> Seq<
    char,
> {
    if exists {
        "MATCH (n:"@ + label + ") WHERE n.id = \""@ + escaped(pk) + "\" SET "@ + assignments(fields) + ";"@
    } else {
        "CREATE (n:"@ + label + " { "@ + properties(pk, fields) + " });"@
    }
}

fn node_text_props_exec(signature: &str, text: &str) -> (r: Vec<(String, String)>)
    ensures
        text_members(r@) == node_text_props(signature@, text@),
{
    let r = vec![
        (own("code_hash"), sha256_hex_utf8(text)),
        (own("signature"), own(signature)),
        (own("embedding_model"), own("jina-embeddings-v4")),
        (own("embedding_task"), own("code.passage")),
        (own("storage_mode"), own("native")),
    ];
    assert(text_members(r@) =~= node_text_props(signature@, text@));
    r
}

fn truncated_flag_exec(text: &str) -> (r: Vec<(String, bool)>)
    ensures
        flag_members(r@) == truncated_flag(text@),
{
    let n = chars_of(text).len();
    let r = vec![(own("text_truncated"), n > 12000)];
    assert(flag_members(r@) =~= truncated_flag(text@));
    r
}

/// The statement writing the `Function` node `fid` for a code unit: its columns, the
/// stored text and the JSON properties (hash of the text, signature, line of the name,
/// whether the text was cut, embedding profile).
pub fn function_node_sql(
    exists: bool,
    fid: &str,
    repo_id: &str,
    rel_path: &str,
    name: &str,
    qualified_name: &str,
    signature: &str,
    text_for_embedding: &str,
    name_line: usize,
) -> (r: String)
    ensures
        r@ == upsert_stmt(
            "Function"@,
            fid@,
            function_fields(
                repo_id@,
                rel_path@,
                name@,
                qualified_name@,
                signature@,
                text_for_embedding@,
                name_line as u64,
            ),
            exists,
        ),
{
    let counts = vec![(own("name_line"), name_line as u64)];
    assert(count_members(counts@) =~= seq![("name_line"@, name_line as u64)]);
    let props = json_object(
        node_text_props_exec(signature, text_for_embedding),
        no_lists(),
        counts,
        truncated_flag_exec(text_for_embedding),
    );
    let fields = vec![
        (own("repo_id"), own(repo_id)),
        (own("path"), own(rel_path)),
        (own("name"), own(name)),
        (own("qualified_name"), own(qualified_name)),
        (own("signature"), own(signature)),
        (own("docstring"), String::new()),
        (own("text"), stored_visible_code(text_for_embedding)),
        (own("properties_json"), props),
    ];
    assert(fields_view(fields@) =~= function_fields(
        repo_id@,
        rel_path@,
        name@,
        qualified_name@,
        signature@,
        text_for_embedding@,
        name_line as u64,
    ));
    upsert_node_sql("Function", fid, &fields, exists)
}

/// The statement writing the `Class` node `cid` for a code unit: its columns, the stored
/// text and the JSON properties (hash of the text, signature, whether the text was cut,
/// embedding profile).
pub fn class_node_sql(
    exists: bool,
    cid: &str,
    repo_id: &str,
    rel_path: &str,
    name: &str,
    qualified_name: &str,
    signature: &str,
    text_for_embedding: &str,
) -> (r: String)
    ensures
        r@ == upsert_stmt(
            "Class"@,
            cid@,
            class_fields(repo_id@, rel_path@, name@, qualified_name@, signature@, text_for_embedding@),
            exists,
        ),
{
    let counts: Vec<(String, u64)> = Vec::new();
    assert(count_members(counts@) =~= Seq::<(Seq<char>, u64)>::empty());
    let props = json_object(
        node_text_props_exec(signature, text_for_embedding),
        no_lists(),
        counts,
        truncated_flag_exec(text_for_embedding),
    );
    let fields = vec![
        (own("repo_id"), own(repo_id)),
        (own("path"), own(rel_path)),
        (own("name"), own(name)),
        (own("qualified_name"), own(qualified_name)),
        (own("docstring"), String::new()),
        (own("text"), stored_visible_code(text_for_embedding)),
        (own("properties_json"), props),
    ];
    assert(fields_view(fields@) =~= class_fields(
        repo_id@,
        rel_path@,
        name@,
        qualified_name@,
        signature@,
        text_for_embedding@,
    ));
    upsert_node_sql("Class", cid, &fields, exists)
}

/// The JSON properties of a `Chunk`: embedding profile, target, signature, qualified name,
/// line of the name, storage mode and width of the embedding.
pub fn chunk_props(
    model: &str,
    task: &str,
    target_kind: &str,
    signature: &str,
    qualified_name: &str,
    name_line: usize,
    dimensions: usize,
) -> (r: String)
    ensures
        r@ == json_object_text(
            seq![
                ("embedding_model"@, model@),
                ("embedding_task"@, task@),
                ("target_kind"@, target_kind@),
                ("signature"@, signature@),
                ("qualified_name"@, qualified_name@),
                ("storage_mode"@, "native"@),
            ],
            seq![("name_line"@, name_line as u64), ("dimensions"@, dimensions as u64)],
            Seq::empty(),
        ),
{
    let texts = vec![
        (own("embedding_model"), own(model)),
        (own("embedding_task"), own(task)),
        (own("target_kind"), own(target_kind)),
        (own("signature"), own(signature)),
        (own("qualified_name"), own(qualified_name)),
        (own("storage_mode"), own("native")),
    ];
    let counts = vec![(own("name_line"), name_line as u64), (own("dimensions"), dimensions as u64)];
    let flags: Vec<(String, bool)> = Vec::new();
    assert(text_members(texts@) =~= seq![
        ("embedding_model"@, model@),
        ("embedding_task"@, task@),
        ("target_kind"@, target_kind@),
        ("signature"@, signature@),
        ("qualified_name"@, qualified_name@),
        ("storage_mode"@, "native"@),
    ]);
    assert(count_members(counts@) =~= seq![("name_line"@, name_line as u64), ("dimensions"@, dimensions as u64)]);
    assert(flag_members(flags@) =~= Seq::<(Seq<char>, bool)>::empty());
    json_object(texts, no_lists(), counts, flags)
}

/// The prepared statement that creates a `Chunk`, with its embedding passed as
/// `$embedding`.
pub open spec fn chunk_insert_stmt() -> Seq<char> {
    "CREATE (n:Chunk {\n  id: $id,\n  repo_id: $repo_id,\n  path: $path,\n  name: $name,\n  text: $text,\n  embedding: $embedding,\n  properties_json: $properties_json\n});"@
}

/// The prepared `Chunk` insert and its string parameters; the stored text is that of the
/// embedded source. The embedding itself is bound beside them.
pub fn chunk_insert(id: &str, repo_id: &str, rel_path: &str, name: &str, props: &str, embed_source: &str) -> (r: (
    String,
    Vec<(String, String)>,
))
    ensures
        r.0@ == chunk_insert_stmt(),
        text_members(r.1@) == seq![
            ("id"@, id@),
            ("repo_id"@, repo_id@),
            ("path"@, rel_path@),
            ("name"@, name@),
            ("text"@, stored_text(embed_source@)),
            ("properties_json"@, props@),
        ],
{
    let stmt = own(
        "CREATE (n:Chunk {\n  id: $id,\n  repo_id: $repo_id,\n  path: $path,\n  name: $name,\n  text: $text,\n  embedding: $embedding,\n  properties_json: $properties_json\n});",
    );
    let params = vec![
        (own("id"), own(id)),
        (own("repo_id"), own(repo_id)),
        (own("path"), own(rel_path)),
        (own("name"), own(name)),
        (own("text"), stored_visible_code(embed_source)),
        (own("properties_json"), own(props)),
    ];
    assert(text_members(params@) =~= seq![
        ("id"@, id@),
        ("repo_id"@, repo_id@),
        ("path"@, rel_path@),
        ("name"@, name@),
        ("text"@, stored_text(embed_source@)),
        ("properties_json"@, props@),
    ]);
    (stmt, params)
}

/// The query reading back the source hash and status of a file's `CodeDocument` and the
/// properties of its `File`.
pub fn snapshot_sql(doc_id: &str, file_pk: &str) -> (r: String)
    ensures
        r@ == "MATCH (d:CodeDocument), (f:File) WHERE d.id = \""@ + escaped(doc_id@) + "\" AND f.id = \""@
            + escaped(file_pk@) + "\" RETURN d.source_hash, d.index_status, f.properties_json LIMIT 1;"@,
{
    let mut s = cat3("MATCH (d:CodeDocument), (f:File) WHERE d.id = \"", esc_lit(doc_id).as_str(), "\" AND f.id = \"");
    s.append(esc_lit(file_pk).as_str());
    s.append("\" RETURN d.source_hash, d.index_status, f.properties_json LIMIT 1;");
    s
}

/// What a snapshot row gives: the source hash and status when the first two cells are
/// strings, with the `jina_fingerprint` member of the third when it is a JSON string.
pub open spec fn snapshot_of(row: Option<Seq<Option<Seq<char>>>>) -> Option<(Seq<char>, Seq<char>, Option<Seq<char>>)> {
    match row {
        None => None,
        Some(cells) => if cells.len() < 3 || cells[0] is None || cells[1] is None {
            None
        } else {
            Some((
                cells[0]->0,
                cells[1]->0,
                match cells[2] {
                    Some(p) => json_string_member(p, "jina_fingerprint"@),
                    None => None,
                },
            ))
        },
    }
}

/// Mathematical value of a row of optional strings.
pub open spec fn cells_view(cells: Seq<Option<String>>) -> Seq<Option<Seq<char>>> {
    cells.map_values(|c: Option<String>| match c {
        Some(s) => Some(s@),
        None => None,
    })
}

/// Reads the snapshot of an indexed file from the first row of `snapshot_sql`, each cell
/// given as `Some` when it holds a string. No row, a short row or a missing hash or status
/// gives `None`; a fingerprint that is absent or not a string gives `None` inside.
pub fn read_snapshot(row: Option<Vec<Option<String>>>) -> (r: Option<(String, String, Option<String>)>)
    ensures
        match r {
            None => snapshot_of(
                match row {
                    Some(c) => Some(cells_view(c@)),
                    None => None,
                },
            ) is None,
            Some((h, st, fp)) => snapshot_of(
                match row {
                    Some(c) => Some(cells_view(c@)),
                    None => None,
                },
            ) == Some(
                (
                    h@,
                    st@,
                    match fp {
                        Some(f) => Some(f@),
                        None => None,
                    },
                ),
            ),
        },
{
    match row {
        None => None,
        Some(cells) => {
            if cells.len() < 3 {
                return None;
            }
            let ghost cv = cells_view(cells@);
            assert(cv[0] == match cells@[0] {
                Some(s) => Some(s@),
                None => None::<Seq<char>>,
            });
            assert(cv[1] == match cells@[1] {
                Some(s) => Some(s@),
                None => None::<Seq<char>>,
            });
            assert(cv[2] == match cells@[2] {
                Some(s) => Some(s@),
                None => None::<Seq<char>>,
            });
            let h = match &cells[0] {
                Some(s) => s.clone(),
                None => return None,
            };
            let st = match &cells[1] {
                Some(s) => s.clone(),
                None => return None,
            };
            let fp = match &cells[2] {
                Some(p) => json_string_field(p.as_str(), "jina_fingerprint"),
                None => None,
            };
            Some((h, st, fp))
        },
    }
}

/// The statement that marks a file's `CodeDocument` pending, stamped with the current
/// time: for some RFC 3339 time text `t`, the statement `document_pending_sql` gives for
/// `t`.
pub fn upsert_code_document_pending(
    exists: bool,
    id: &str,
    repo_id: &str,
    rel_path: &str,
    name: &str,
    ohash: &str,
    repo_root: &str,
) -> (r: String)
    ensures
        exists|t: Seq<char>|
            rfc3339_secs_shape(t) && r@ == #[trigger] document_pending_stmt(exists, id@, repo_id@, rel_path@, name@, ohash@, repo_root@, t),
{
    let now = now_rfc3339_secs();
    document_pending_sql(exists, id, repo_id, rel_path, name, ohash, repo_root, now.as_str())
}

/// The statement that writes a file's `File` row as pending, with the current time as
/// the time of the attempt: for some RFC 3339 time text `t`, `file_upsert_sql` of the
/// pending properties for `t`.
pub fn upsert_file_pending(
    exists: bool,
    id: &str,
    repo_id: &str,
    rel_path: &str,
    name: &str,
    ohash: &str,
    repo_root: &str,
) -> (r: String)
    ensures
        exists|t: Seq<char>|
            rfc3339_secs_shape(t) && r@ == file_write(exists, id@, repo_id@, rel_path@, name@, #[trigger] pending_file_props(ohash@, repo_root@, t)),
{
    let now = now_rfc3339_secs();
    let props = file_pending_props(ohash, repo_root, now.as_str());
    file_upsert_sql(exists, id, repo_id, rel_path, name, props.as_str())
}

/// The two statements that mark a file indexed: its `CodeDocument` complete and its
/// `File` properties complete with the fingerprint, both stamped with the current time.
pub fn mark_file_and_document_complete(
    doc_id: &str,
    file_pk: &str,
    repo_id: &str,
    rel_path: &str,
    name: &str,
    ohash: &str,
    repo_root: &str,
    jina_fingerprint: &str,
) -> (r: (String, String))
    ensures
        exists|t: Seq<char>|
            rfc3339_secs_shape(t) && r.0@ == #[trigger] document_complete_stmt(doc_id@, repo_id@, rel_path@, name@, ohash@, repo_root@, t),
        exists|t: Seq<char>|
            rfc3339_secs_shape(t) && r.1@ == file_write(
                true,
                file_pk@,
                repo_id@,
                rel_path@,
                name@,
                #[trigger] complete_file_props(ohash@, repo_root@, t, jina_fingerprint@),
            ),
{
    let now = now_rfc3339_secs();
    let doc = document_complete_sql(doc_id, repo_id, rel_path, name, ohash, repo_root, now.as_str());
    let later = now_rfc3339_secs();
    let props = file_complete_props(ohash, repo_root, later.as_str(), jina_fingerprint);
    let file = file_upsert_sql(true, file_pk, repo_id, rel_path, name, props.as_str());
    (doc, file)
}

} // verus!
