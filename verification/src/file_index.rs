//! Indexing one repository file, as a conversation with the caller who runs the graph
//! statements and the embedding requests: each answer gives the next request, from the
//! removal of the file's old rows, through the pending marks, the embedding batches and
//! the rows of each code unit, to the marks that the file is complete.
use vstd::prelude::*;
use vstd::utf8::{decode_utf8, valid_utf8};

use crate::code::{extract_units, file_units, kinds_match, posix, units_view, CodeUnit, LangPack, UnitView};
use crate::code_writes::{
    chunk_insert, chunk_insert_stmt, chunk_props, class_fields, class_node_sql, complete_file_props,
    document_complete_stmt, document_pending_stmt, file_write, function_fields, function_node_sql,
    json_object_text, mark_file_and_document_complete, pending_file_props, rfc3339_secs_shape, stored_text, text_members,
    upsert_code_document_pending, upsert_file_pending, upsert_stmt,
};
use crate::codegraph::{
    defines_sql, delete_file_derivatives_sql, delete_file_derivatives_stmt, describes_sql,
    detach_chunk_sql, edge_create, edge_probe, esc_lit, escaped, first_chars, jina_fingerprint_for_run,
    trim_for_embedding,
};
use crate::ids::{chunk_id, document_id, file_id, keyed, md5_hex, md5_hex_of, sha256_hex_of};
use crate::indexer::{check_embedding_width, unit_target};
use crate::jina::{count_mismatch, count_mismatch_error};
use crate::model::{cat, cat3, own};
use crate::paths::{short_tail, short_tail_name};
use crate::registry::FunctionAnchorRegistry;
use crate::text::decimal;

verus! {

/// What the caller is asked to do next.
#[derive(Debug)]
pub enum IndexAction {
    /// Run the statement; answer `Done`.
    Run(String),
    /// Run the probe; answer `Probed` with whether it returned a row.
    Probe(String),
    /// Embed the passages, in order; answer `Embedded` with the width of each vector. An
    /// answer with another number of vectors than passages stops indexing.
    Embed(Vec<String>),
    /// Prepare `stmt` and execute it with `params` and, as `$embedding`, the vector at
    /// `vector` of the last embedding answer; answer `Done`, or `NotPrepared` when the
    /// statement could not be prepared.
    InsertChunk { stmt: String, params: Vec<(String, String)>, vector: usize },
    /// The file is indexed, or skipped because it is not UTF-8 text.
    Finished,
    /// Indexing stopped with this error.
    Stopped(String),
}

/// What the caller reports back.
#[derive(Debug)]
pub enum IndexEvent {
    /// The statement ran.
    Done,
    /// The probe ran and returned a row or not.
    Probed(bool),
    /// The passages were embedded; the width of each vector, in order.
    Embedded(Vec<usize>),
    /// The chunk statement could not be prepared.
    NotPrepared(String),
    /// The request failed with this message.
    Failed(String),
}

/// Where the indexing of a file stands: the request that awaits its answer.
#[derive(Debug, Clone, Copy, PartialEq, Eq, Structural)]
pub enum IndexPhase {
    Delete,
    ProbeDocument,
    WriteDocument,
    ProbeFile,
    WriteFile,
    Embedding,
    ProbeNode,
    WriteNode,
    ProbeDefines,
    WriteDefines,
    DetachChunk,
    InsertChunk,
    ProbeDescribes,
    WriteDescribes,
    CompleteDocument,
    CompleteFile,
    Finished,
    Stopped,
}

/// Mathematical value of a request.
pub enum ActionView {
    Run(Seq<char>),
    Probe(Seq<char>),
    Embed(Seq<Seq<char>>),
    InsertChunk(Seq<char>, Seq<(Seq<char>, Seq<char>)>, nat),
    Finished,
    Stopped(Seq<char>),
}

/// Mathematical value of an answer.
pub enum EventView {
    Done,
    Probed(bool),
    Embedded(Seq<usize>),
    NotPrepared(Seq<char>),
    Failed(Seq<char>),
}

impl View for IndexAction {
    type V = ActionView;

    open spec fn view(&self) -> ActionView {
        match self {
            IndexAction::Run(s) => ActionView::Run(s@),
            IndexAction::Probe(s) => ActionView::Probe(s@),
            IndexAction::Embed(p) => ActionView::Embed(p@.map_values(|s: String| s@)),
            IndexAction::InsertChunk { stmt, params, vector } => ActionView::InsertChunk(
                stmt@,
                text_members(params@),
                *vector as nat,
            ),
            IndexAction::Finished => ActionView::Finished,
            IndexAction::Stopped(e) => ActionView::Stopped(e@),
        }
    }
}

impl View for IndexEvent {
    type V = EventView;

    open spec fn view(&self) -> EventView {
        match self {
            IndexEvent::Done => EventView::Done,
            IndexEvent::Probed(b) => EventView::Probed(*b),
            IndexEvent::Embedded(w) => EventView::Embedded(w@),
            IndexEvent::NotPrepared(e) => EventView::NotPrepared(e@),
            IndexEvent::Failed(e) => EventView::Failed(e@),
        }
    }
}

/// Mathematical value of the indexing of a file: what it was given, where it stands, and
/// the function anchors recorded so far.
pub struct IndexerView {
    pub repo_id: Seq<char>,
    pub repo_root: Seq<char>,
    pub rel_path: Seq<char>,
    pub stem: Seq<char>,
    pub ohash: Seq<char>,
    pub model: Seq<char>,
    pub task: Seq<char>,
    pub dims: nat,
    pub batch_units: nat,
    pub units: Seq<UnitView>,
    pub phase: IndexPhase,
    /// Whether the last probe of a row found it.
    pub exists: bool,
    /// The units of the current batch are `batch_start..batch_end`.
    pub batch_start: nat,
    pub batch_end: nat,
    /// The widths of the vectors of the current batch.
    pub widths: Seq<usize>,
    /// The unit being written.
    pub pos: nat,
    /// The statement completing the `File` row, run after the document's.
    pub file_complete: Seq<char>,
    /// The error indexing stopped with.
    pub error: Seq<char>,
    pub anchors: Map<(Seq<char>, usize), Seq<char>>,
}

/// The `CodeDocument` id of the file.
pub open spec fn doc_pk(v: IndexerView) -> Seq<char> {
    keyed("code-document:"@, v.repo_id, v.rel_path)
}

/// The `File` id of the file.
pub open spec fn file_pk(v: IndexerView) -> Seq<char> {
    keyed("file:"@, v.repo_id, v.rel_path)
}

/// The fingerprint of the embedding run: `model|task|dimensions`.
pub open spec fn run_fingerprint(v: IndexerView) -> Seq<char> {
    v.model + "|"@ + v.task + "|"@ + decimal(v.dims)
}

/// Whether a unit is stored as a class.
pub open spec fn is_class(u: UnitView) -> bool {
    u.table == "Class"@
}

/// The label of the node a unit is stored as.
pub open spec fn unit_label(u: UnitView) -> Seq<char> {
    if is_class(u) {
        "Class"@
    } else {
        "Function"@
    }
}

/// The id of the node a unit is stored as.
pub open spec fn unit_pk(v: IndexerView, u: UnitView) -> Seq<char> {
    if is_class(u) {
        keyed("class:"@, v.repo_id, u.signature)
    } else {
        keyed("function:"@, v.repo_id, u.signature)
    }
}

/// The text of a unit sent for embedding.
pub open spec fn unit_text(u: UnitView) -> Seq<char> {
    first_chars(u.source_text, 120000)
}

/// The id of the chunk of a unit.
pub open spec fn unit_chunk(v: IndexerView, u: UnitView) -> Seq<char> {
    "chunk:"@ + sha256_hex_of(v.repo_id + ":"@ + u.table + ":"@ + u.signature + ":"@ + unit_text(u))
}

/// The write of a unit's node, an update when it exists.
pub open spec fn node_write(v: IndexerView, u: UnitView, exists: bool) -> Seq<char> {
    if is_class(u) {
        upsert_stmt(
            "Class"@,
            unit_pk(v, u),
            class_fields(v.repo_id, v.rel_path, short_tail(u.qualified_name), u.qualified_name, u.signature, unit_text(u)),
            exists,
        )
    } else {
        upsert_stmt(
            "Function"@,
            unit_pk(v, u),
            function_fields(
                v.repo_id,
                v.rel_path,
                short_tail(u.qualified_name),
                u.qualified_name,
                u.signature,
                unit_text(u),
                u.name_line as u64,
            ),
            exists,
        )
    }
}

/// The JSON properties of a unit's chunk.
pub open spec fn chunk_props_of(v: IndexerView, u: UnitView) -> Seq<char> {
    json_object_text(
        seq![
            ("embedding_model"@, v.model),
            ("embedding_task"@, v.task),
            ("target_kind"@, u.table),
            ("signature"@, u.signature),
            ("qualified_name"@, u.qualified_name),
            ("storage_mode"@, "native"@),
        ],
        seq![("name_line"@, u.name_line as u64), ("dimensions"@, v.dims as u64)],
        Seq::empty(),
    )
}

/// The string parameters of a unit's chunk insert.
pub open spec fn chunk_params(v: IndexerView, u: UnitView) -> Seq<(Seq<char>, Seq<char>)> {
    seq![
        ("id"@, unit_chunk(v, u)),
        ("repo_id"@, v.repo_id),
        ("path"@, v.rel_path),
        ("name"@, short_tail(u.qualified_name)),
        ("text"@, stored_text(unit_text(u))),
        ("properties_json"@, chunk_props_of(v, u)),
    ]
}

/// The probe for the row of `label` with id `pk`, bound to `var`.
pub open spec fn row_probe(var: Seq<char>, label: Seq<char>, pk: Seq<char>) -> Seq<char> {
    "MATCH ("@ + var + ":"@ + label + ") WHERE "@ + var + ".id = \""@ + escaped(pk) + "\" RETURN 1 LIMIT 1;"@
}

/// The removal of a chunk by id.
pub open spec fn detach_stmt(chunk: Seq<char>) -> Seq<char> {
    "MATCH (ch:Chunk) WHERE ch.id = \""@ + escaped(chunk) + "\" DETACH DELETE ch;"@
}

/// The error naming an embedding of the wrong width.
pub open spec fn width_error(w: nat, dims: nat, signature: Seq<char>) -> Seq<char> {
    "embedding width "@ + decimal(w) + " differs from configured "@ + decimal(dims) + " for "@ + signature
}

/// Indexing stopped with `msg`.
pub open spec fn stops(v: IndexerView, v2: IndexerView, a: ActionView, msg: Seq<char>) -> bool {
    &&& v2 == IndexerView { phase: IndexPhase::Stopped, error: msg, ..v }
    &&& a == ActionView::Stopped(msg)
}

/// The answer was not one the pending request has.
pub open spec fn unexpected(v: IndexerView, v2: IndexerView, a: ActionView) -> bool {
    stops(v, v2, a, "unexpected answer to an indexing request"@)
}

/// The end of the units of the current batch that have a vector.
pub open spec fn usable_end(v: IndexerView) -> nat {
    if v.widths.len() < v.batch_end - v.batch_start {
        v.batch_start + v.widths.len()
    } else {
        v.batch_end
    }
}

/// The next batch starts at `start`: its passages are embedded, or, past the last unit,
/// the document is marked complete and the completion of the file kept for after.
pub open spec fn opens_batch(v: IndexerView, start: nat, v2: IndexerView, a: ActionView) -> bool {
    if start < v.units.len() {
        let end = if start + v.batch_units < v.units.len() {
            start + v.batch_units
        } else {
            v.units.len()
        };
        &&& v2 == IndexerView { phase: IndexPhase::Embedding, batch_start: start, batch_end: end, ..v }
        &&& a == ActionView::Embed(Seq::new((end - start) as nat, |i: int| unit_text(v.units[start + i])))
    } else {
        exists|t: Seq<char>, t2: Seq<char>|
            {
                &&& rfc3339_secs_shape(t) && rfc3339_secs_shape(t2)
                &&& v2 == IndexerView {
                    phase: IndexPhase::CompleteDocument,
                    file_complete: file_write(
                        true,
                        file_pk(v),
                        v.repo_id,
                        v.rel_path,
                        v.stem,
                        #[trigger] complete_file_props(v.ohash, v.repo_root, t2, run_fingerprint(v)),
                    ),
                    ..v
                }
                &&& a == ActionView::Run(
                    #[trigger] document_complete_stmt(doc_pk(v), v.repo_id, v.rel_path, v.stem, v.ohash, v.repo_root, t),
                )
            }
    }
}

/// The unit at `v.pos` is taken up: its vector's width is checked and its node probed;
/// past the units with a vector, the next batch opens.
pub open spec fn enters_unit(v: IndexerView, v2: IndexerView, a: ActionView) -> bool {
    if v.pos < usable_end(v) {
        let u = v.units[v.pos as int];
        let w = v.widths[v.pos - v.batch_start];
        if w != v.dims {
            stops(v, v2, a, width_error(w as nat, v.dims, u.signature))
        } else {
            &&& v2 == IndexerView { phase: IndexPhase::ProbeNode, ..v }
            &&& a == ActionView::Probe(row_probe("n"@, unit_label(u), unit_pk(v, u)))
        }
    } else {
        opens_batch(v, v.batch_end, v2, a)
    }
}

/// One answer `e` to the pending request of `v`: the new state `v2` and the next request `a`.
/// A failure stops indexing with a message naming the request that failed.
pub open spec fn step_holds(v: IndexerView, e: EventView, v2: IndexerView, a: ActionView) -> bool {
    let u = v.units[v.pos as int];
    match v.phase {
        IndexPhase::Delete => match e {
            EventView::Done => v2 == IndexerView { phase: IndexPhase::ProbeDocument, ..v } && a
                == ActionView::Probe(row_probe("d"@, "CodeDocument"@, doc_pk(v))),
            EventView::Failed(m) => stops(v, v2, a, "delete_file_derivatives failed: "@ + m),
            _ => unexpected(v, v2, a),
        },
        IndexPhase::ProbeDocument => match e {
            EventView::Probed(b) => {
                &&& v2 == IndexerView { phase: IndexPhase::WriteDocument, exists: b, ..v }
                &&& exists|t: Seq<char>|
                    rfc3339_secs_shape(t) && a == ActionView::Run(
                        #[trigger] document_pending_stmt(b, doc_pk(v), v.repo_id, v.rel_path, v.stem, v.ohash, v.repo_root, t),
                    )
            },
            EventView::Failed(m) => stops(v, v2, a, "CodeDocument existence probe failed: "@ + m),
            _ => unexpected(v, v2, a),
        },
        IndexPhase::WriteDocument => match e {
            EventView::Done => v2 == IndexerView { phase: IndexPhase::ProbeFile, ..v } && a
                == ActionView::Probe(row_probe("f"@, "File"@, file_pk(v))),
            EventView::Failed(m) => stops(
                v,
                v2,
                a,
                if v.exists {
                    "CodeDocument pending update failed: "@
                } else {
                    "CodeDocument create failed: "@
                } + m,
            ),
            _ => unexpected(v, v2, a),
        },
        IndexPhase::ProbeFile => match e {
            EventView::Probed(b) => {
                &&& v2 == IndexerView { phase: IndexPhase::WriteFile, exists: b, ..v }
                &&& exists|t: Seq<char>|
                    rfc3339_secs_shape(t) && a == ActionView::Run(
                        file_write(b, file_pk(v), v.repo_id, v.rel_path, v.stem, #[trigger] pending_file_props(v.ohash, v.repo_root, t)),
                    )
            },
            EventView::Failed(m) => stops(v, v2, a, "File existence probe failed: "@ + m),
            _ => unexpected(v, v2, a),
        },
        IndexPhase::WriteFile => match e {
            EventView::Done => if v.batch_units == 0 {
                stops(v, v2, a, "--batch-units must be positive"@)
            } else {
                opens_batch(v, 0, v2, a)
            },
            EventView::Failed(m) => stops(
                v,
                v2,
                a,
                if v.exists {
                    "File pending update failed: "@
                } else {
                    "File create failed: "@
                } + m,
            ),
            _ => unexpected(v, v2, a),
        },
        IndexPhase::Embedding => match e {
            EventView::Embedded(ws) => if ws.len() != v.batch_end - v.batch_start {
                stops(v, v2, a, count_mismatch((v.batch_end - v.batch_start) as nat, ws.len()))
            } else {
                enters_unit(IndexerView { widths: ws, pos: v.batch_start, ..v }, v2, a)
            },
            EventView::Failed(m) => stops(v, v2, a, m),
            _ => unexpected(v, v2, a),
        },
        IndexPhase::ProbeNode => match e {
            EventView::Probed(b) => v2 == IndexerView { phase: IndexPhase::WriteNode, exists: b, ..v } && a
                == ActionView::Run(node_write(v, u, b)),
            EventView::Failed(m) => stops(
                v,
                v2,
                a,
                unit_label(u) + " existence probe failed for "@ + unit_pk(v, u) + ": "@ + m,
            ),
            _ => unexpected(v, v2, a),
        },
        IndexPhase::WriteNode => match e {
            EventView::Done => {
                &&& v2 == IndexerView {
                    phase: IndexPhase::ProbeDefines,
                    anchors: if is_class(u) {
                        v.anchors
                    } else {
                        v.anchors.insert((posix(v.rel_path), u.name_line as usize), unit_pk(v, u))
                    },
                    ..v
                }
                &&& a == ActionView::Probe(
                    edge_probe("f"@, "File"@, "DEFINES"@, "t"@, unit_label(u), file_pk(v), unit_pk(v, u)),
                )
            },
            EventView::Failed(m) => stops(
                v,
                v2,
                a,
                unit_label(u) + if v.exists {
                    " UPDATE failed for "@
                } else {
                    " CREATE failed for "@
                } + unit_pk(v, u) + ": "@ + m,
            ),
            _ => unexpected(v, v2, a),
        },
        IndexPhase::ProbeDefines => match e {
            EventView::Probed(true) => v2 == IndexerView { phase: IndexPhase::DetachChunk, ..v } && a
                == ActionView::Run(detach_stmt(unit_chunk(v, u))),
            EventView::Probed(false) => v2 == IndexerView { phase: IndexPhase::WriteDefines, ..v } && a
                == ActionView::Run(
                edge_create("f"@, "File"@, "DEFINES"@, "t"@, unit_label(u), file_pk(v), unit_pk(v, u)),
            ),
            EventView::Failed(m) => stops(v, v2, a, "defines probe failed: "@ + m),
            _ => unexpected(v, v2, a),
        },
        IndexPhase::WriteDefines => match e {
            EventView::Done => v2 == IndexerView { phase: IndexPhase::DetachChunk, ..v } && a
                == ActionView::Run(detach_stmt(unit_chunk(v, u))),
            EventView::Failed(m) => stops(v, v2, a, "CREATE DEFINES failed: "@ + m),
            _ => unexpected(v, v2, a),
        },
        IndexPhase::DetachChunk => match e {
            EventView::Done => v2 == IndexerView { phase: IndexPhase::InsertChunk, ..v } && a
                == ActionView::InsertChunk(chunk_insert_stmt(), chunk_params(v, u), (v.pos - v.batch_start) as nat),
            EventView::Failed(m) => stops(v, v2, a, "drop chunk failed: "@ + m),
            _ => unexpected(v, v2, a),
        },
        IndexPhase::InsertChunk => match e {
            EventView::Done => v2 == IndexerView { phase: IndexPhase::ProbeDescribes, ..v } && a
                == ActionView::Probe(
                edge_probe("c"@, "Chunk"@, "DESCRIBES"@, "t"@, unit_label(u), unit_chunk(v, u), unit_pk(v, u)),
            ),
            EventView::NotPrepared(m) => stops(v, v2, a, "prepare Chunk insert failed: "@ + m),
            EventView::Failed(m) => stops(
                v,
                v2,
                a,
                "Chunk insert execute failed for "@ + unit_chunk(v, u) + ": "@ + m,
            ),
            _ => unexpected(v, v2, a),
        },
        IndexPhase::ProbeDescribes => match e {
            EventView::Probed(true) => enters_unit(IndexerView { pos: v.pos + 1, ..v }, v2, a),
            EventView::Probed(false) => v2 == IndexerView { phase: IndexPhase::WriteDescribes, ..v } && a
                == ActionView::Run(
                edge_create("c"@, "Chunk"@, "DESCRIBES"@, "t"@, unit_label(u), unit_chunk(v, u), unit_pk(v, u)),
            ),
            EventView::Failed(m) => stops(v, v2, a, "describes probe failed: "@ + m),
            _ => unexpected(v, v2, a),
        },
        IndexPhase::WriteDescribes => match e {
            EventView::Done => enters_unit(IndexerView { pos: v.pos + 1, ..v }, v2, a),
            EventView::Failed(m) => stops(v, v2, a, "CREATE DESCRIBES failed: "@ + m),
            _ => unexpected(v, v2, a),
        },
        IndexPhase::CompleteDocument => match e {
            EventView::Done => v2 == IndexerView { phase: IndexPhase::CompleteFile, ..v } && a
                == ActionView::Run(v.file_complete),
            EventView::Failed(m) => stops(v, v2, a, "CodeDocument completion failed: "@ + m),
            _ => unexpected(v, v2, a),
        },
        IndexPhase::CompleteFile => match e {
            EventView::Done => v2 == IndexerView { phase: IndexPhase::Finished, ..v } && a
                == ActionView::Finished,
            EventView::Failed(m) => stops(v, v2, a, "File completion failed: "@ + m),
            _ => unexpected(v, v2, a),
        },
        IndexPhase::Finished => v2 == v && a == ActionView::Finished,
        IndexPhase::Stopped => v2 == v && a == ActionView::Stopped(v.error),
    }
}

/// A chunk is created only right after the removal of any chunk with its id: whenever a
/// step asks for a chunk insert, the request answered just before was the
/// `DETACH DELETE` of the id the insert binds.
pub proof fn lemma_insert_follows_detach(
    v1: IndexerView,
    e1: EventView,
    v2: IndexerView,
    a1: ActionView,
    e2: EventView,
    v3: IndexerView,
    a2: ActionView,
)
    requires
        step_holds(v1, e1, v2, a1),
        step_holds(v2, e2, v3, a2),
        a2 is InsertChunk,
    ensures
        match a2 {
            ActionView::InsertChunk(_, params, _) => params.len() > 0 && params[0].0 == "id"@ && a1
                == ActionView::Run(detach_stmt(params[0].1)),
            _ => false,
        },
{
    assert(v2.phase == IndexPhase::DetachChunk);
    if v1.phase == IndexPhase::Embedding || v1.phase == IndexPhase::ProbeDescribes || v1.phase
        == IndexPhase::WriteDescribes || v1.phase == IndexPhase::WriteFile {
        assert(v2.phase != IndexPhase::DetachChunk);
    }
    assert(v1.phase == IndexPhase::ProbeDefines || v1.phase == IndexPhase::WriteDefines);
    assert(v2.units == v1.units && v2.pos == v1.pos && v2.repo_id == v1.repo_id);
}

/// `String::from_utf8`: the text of `bytes` when they are well-formed UTF-8, else `None`.
#[verifier::external_body]
fn utf8_text(bytes: Vec<u8>) -> (r: Option<String>)
    ensures
        match r {
            Some(s) => valid_utf8(bytes@) && s@ == decode_utf8(bytes@),
            None => !valid_utf8(bytes@),
        },
{
    String::from_utf8(bytes).ok()
}

/// Well-formed UTF-8 holds no more characters than bytes.
proof fn lemma_decode_len(bytes: Seq<u8>)
    requires
        valid_utf8(bytes),
    ensures
        decode_utf8(bytes).len() <= bytes.len(),
    decreases bytes.len(),
{
    if bytes.len() > 0 {
        let n = vstd::utf8::length_of_first_scalar(bytes);
        assert(1 <= n <= bytes.len());
        let rest = vstd::utf8::pop_first_scalar(bytes);
        assert(rest.len() == bytes.len() - n);
        lemma_decode_len(rest);
    }
}

/// The indexing of one file: what it was given, where it stands, and the registry of
/// function anchors it fills.
pub struct FileIndexer {
    repo_id: String,
    repo_root: String,
    rel_path: String,
    stem: String,
    ohash: String,
    model: String,
    task: String,
    dims: usize,
    batch_units: usize,
    fid: String,
    doc_pk: String,
    units: Vec<CodeUnit>,
    phase: IndexPhase,
    exists: bool,
    batch_start: usize,
    batch_end: usize,
    widths: Vec<usize>,
    pos: usize,
    file_complete: String,
    error: String,
    registry: FunctionAnchorRegistry,
}

impl View for FileIndexer {
    type V = IndexerView;

    closed spec fn view(&self) -> IndexerView {
        IndexerView {
            repo_id: self.repo_id@,
            repo_root: self.repo_root@,
            rel_path: self.rel_path@,
            stem: self.stem@,
            ohash: self.ohash@,
            model: self.model@,
            task: self.task@,
            dims: self.dims as nat,
            batch_units: self.batch_units as nat,
            units: units_view(self.units@),
            phase: self.phase,
            exists: self.exists,
            batch_start: self.batch_start as nat,
            batch_end: self.batch_end as nat,
            widths: self.widths@,
            pos: self.pos as nat,
            file_complete: self.file_complete@,
            error: self.error@,
            anchors: self.registry@,
        }
    }
}

/// Whether `p` is a request about the unit at `pos`.
pub open spec fn is_unit_phase(p: IndexPhase) -> bool {
    match p {
        IndexPhase::ProbeNode | IndexPhase::WriteNode | IndexPhase::ProbeDefines | IndexPhase::WriteDefines
        | IndexPhase::DetachChunk | IndexPhase::InsertChunk | IndexPhase::ProbeDescribes
        | IndexPhase::WriteDescribes => true,
        _ => false,
    }
}

fn row_probe_sql(var: &str, label: &str, pk: &str) -> (r: String)
    ensures
        r@ == row_probe(var@, label@, pk@),
{
    let mut s = cat3("MATCH (", var, ":");
    s.append(label);
    s.append(") WHERE ");
    s.append(var);
    s.append(".id = \"");
    s.append(esc_lit(pk).as_str());
    s.append("\" RETURN 1 LIMIT 1;");
    s
}

impl FileIndexer {
    spec fn wf_core(&self) -> bool {
        &&& self.fid@ == keyed("file:"@, self.repo_id@, self.rel_path@)
        &&& self.doc_pk@ == keyed("code-document:"@, self.repo_id@, self.rel_path@)
        &&& kinds_match(self.units@)
        &&& self.batch_start <= self.batch_end <= self.units@.len()
    }

    /// The ids are those of the file, each unit's kind is its table, the batch lies within
    /// the units, and a request about a unit is about one of the batch that has a vector.
    pub closed spec fn wf(&self) -> bool {
        &&& self.wf_core()
        &&& is_unit_phase(self.phase) ==> self.batch_start <= self.pos < usable_end(self@)
    }

    /// Starts indexing the file `rel_path` of the repository from its bytes: the file
    /// is skipped when they are not UTF-8; otherwise its units are extracted, its hash
    /// is the MD5 of the bytes, and the first request removes its old rows.
    pub fn start(
        repo_id: &str,
        repo_root: &str,
        rel_path: &str,
        stem: &str,
        bytes: Vec<u8>,
        lang: LangPack,
        dims: usize,
        batch_units: usize,
        model: &str,
        task: &str,
        registry: FunctionAnchorRegistry,
    ) -> (r: (FileIndexer, IndexAction))
        requires
            bytes@.len() < usize::MAX,
        ensures
            r.0.wf(),
            r.0@.repo_id == repo_id@,
            r.0@.repo_root == repo_root@,
            r.0@.rel_path == rel_path@,
            r.0@.stem == stem@,
            r.0@.ohash == md5_hex_of(bytes@),
            r.0@.model == model@,
            r.0@.task == task@,
            r.0@.dims == dims,
            r.0@.batch_units == batch_units,
            r.0@.anchors == registry@,
            valid_utf8(bytes@) ==> {
                &&& r.0@.units == file_units(rel_path@, lang, decode_utf8(bytes@))
                &&& r.0@.phase == IndexPhase::Delete
                &&& r.1@ == ActionView::Run(delete_file_derivatives_stmt(repo_id@, rel_path@))
            },
            !valid_utf8(bytes@) ==> r.0@.phase == IndexPhase::Finished && r.1@ == ActionView::Finished,
    {
        let ohash = md5_hex(bytes.as_slice());
        let ghost b = bytes@;
        let text = utf8_text(bytes);
        let (units, phase, action) = match text {
            Some(source) => {
                proof {
                    lemma_decode_len(b);
                }
                let units = extract_units(rel_path, lang, source.as_str());
                (units, IndexPhase::Delete, IndexAction::Run(delete_file_derivatives_sql(repo_id, rel_path)))
            },
            None => (Vec::new(), IndexPhase::Finished, IndexAction::Finished),
        };
        let ix = FileIndexer {
            repo_id: own(repo_id),
            repo_root: own(repo_root),
            rel_path: own(rel_path),
            stem: own(stem),
            ohash,
            model: own(model),
            task: own(task),
            dims,
            batch_units,
            fid: file_id(repo_id, rel_path),
            doc_pk: document_id(repo_id, rel_path),
            units,
            phase,
            exists: false,
            batch_start: 0,
            batch_end: 0,
            widths: Vec::new(),
            pos: 0,
            file_complete: String::new(),
            error: String::new(),
            registry,
        };
        (ix, action)
    }

    /// The registry of function anchors, with those this file recorded.
    pub fn into_registry(self) -> (r: FunctionAnchorRegistry)
        ensures
            r@ == self@.anchors,
    {
        self.registry
    }

    fn stop(&mut self, msg: String) -> (r: IndexAction)
        requires
            old(self).wf_core(),
        ensures
            final(self).wf(),
            stops(old(self)@, final(self)@, r@, msg@),
    {
        let e = msg.clone();
        self.phase = IndexPhase::Stopped;
        self.error = msg;
        IndexAction::Stopped(e)
    }

    fn open_batch(&mut self, start: usize) -> (r: IndexAction)
        requires
            old(self).wf_core(),
            start <= old(self).units@.len(),
        ensures
            final(self).wf(),
            opens_batch(old(self)@, start as nat, final(self)@, r@),
    {
        let ghost v = self@;
        let n = self.units.len();
        if start < n {
            let end = if self.batch_units < n - start {
                start + self.batch_units
            } else {
                n
            };
            let mut passages: Vec<String> = Vec::new();
            let mut i = start;
            while i < end
                invariant
                    start <= i <= end <= self.units@.len(),
                    self@ == v,
                    passages@.len() == i - start,
                    forall|k: int|
                        0 <= k < i - start ==> (#[trigger] passages@[k])@ == unit_text(v.units[start + k]),
                decreases end - i,
            {
                passages.push(trim_for_embedding(self.units[i].source_text.as_str()));
                i = i + 1;
            }
            self.phase = IndexPhase::Embedding;
            self.batch_start = start;
            self.batch_end = end;
            assert(passages@.map_values(|s: String| s@) =~= Seq::new(
                (end - start) as nat,
                |k: int| unit_text(v.units[start + k]),
            ));
            IndexAction::Embed(passages)
        } else {
            let fp = jina_fingerprint_for_run(self.model.as_str(), self.task.as_str(), self.dims);
            let (doc, file) = mark_file_and_document_complete(
                self.doc_pk.as_str(),
                self.fid.as_str(),
                self.repo_id.as_str(),
                self.rel_path.as_str(),
                self.stem.as_str(),
                self.ohash.as_str(),
                self.repo_root.as_str(),
                fp.as_str(),
            );
            self.phase = IndexPhase::CompleteDocument;
            self.file_complete = file;
            proof {
                let t = choose|t: Seq<char>|
                    doc@ == #[trigger] document_complete_stmt(doc_pk(v), v.repo_id, v.rel_path, v.stem, v.ohash, v.repo_root, t);
                let t2 = choose|t2: Seq<char>|
                    file@ == file_write(
                        true,
                        file_pk(v),
                        v.repo_id,
                        v.rel_path,
                        v.stem,
                        #[trigger] complete_file_props(v.ohash, v.repo_root, t2, fp@),
                    );
                assert(fp@ == run_fingerprint(v));
                assert(doc@ == document_complete_stmt(doc_pk(v), v.repo_id, v.rel_path, v.stem, v.ohash, v.repo_root, t));
                assert(self@.file_complete == file_write(
                    true,
                    file_pk(v),
                    v.repo_id,
                    v.rel_path,
                    v.stem,
                    complete_file_props(v.ohash, v.repo_root, t2, run_fingerprint(v)),
                ));
            }
            IndexAction::Run(doc)
        }
    }
}

impl FileIndexer {
    fn unexpected_answer(&mut self) -> (r: IndexAction)
        requires
            old(self).wf_core(),
        ensures
            final(self).wf(),
            unexpected(old(self)@, final(self)@, r@),
    {
        self.stop(own("unexpected answer to an indexing request"))
    }

    /// The node id, node label and chunk id of the unit at `pos`.
    fn unit_names(&self) -> (r: (String, &'static str, String))
        requires
            self.wf_core(),
            self.pos < self.units@.len(),
        ensures
            r.0@ == unit_pk(self@, self@.units[self.pos as int]),
            r.1@ == unit_label(self@.units[self.pos as int]),
            r.2@ == unit_chunk(self@, self@.units[self.pos as int]),
    {
        let u = &self.units[self.pos];
        let (pk, label) = unit_target(self.repo_id.as_str(), u);
        let text = trim_for_embedding(u.source_text.as_str());
        let cid = chunk_id(self.repo_id.as_str(), u.target_kind, u.signature.as_str(), text.as_str());
        (pk, label, cid)
    }

    fn node_write_sql(&self, exists: bool) -> (r: String)
        requires
            self.wf_core(),
            self.pos < self.units@.len(),
        ensures
            r@ == node_write(self@, self@.units[self.pos as int], exists),
    {
        let u = &self.units[self.pos];
        let (pk, _label) = unit_target(self.repo_id.as_str(), u);
        let name = short_tail_name(u.qualified_name.as_str());
        let text = trim_for_embedding(u.source_text.as_str());
        if crate::text::str_eq(u.target_table, "Class") {
            class_node_sql(
                exists,
                pk.as_str(),
                self.repo_id.as_str(),
                self.rel_path.as_str(),
                name.as_str(),
                u.qualified_name.as_str(),
                u.signature.as_str(),
                text.as_str(),
            )
        } else {
            function_node_sql(
                exists,
                pk.as_str(),
                self.repo_id.as_str(),
                self.rel_path.as_str(),
                name.as_str(),
                u.qualified_name.as_str(),
                u.signature.as_str(),
                text.as_str(),
                u.name_line,
            )
        }
    }

    fn chunk_request(&self) -> (r: IndexAction)
        requires
            self.wf_core(),
            self.batch_start <= self.pos < self.units@.len(),
        ensures
            r@ == ActionView::InsertChunk(
                chunk_insert_stmt(),
                chunk_params(self@, self@.units[self.pos as int]),
                (self.pos - self.batch_start) as nat,
            ),
    {
        let u = &self.units[self.pos];
        let (_pk, _label, cid) = self.unit_names();
        let name = short_tail_name(u.qualified_name.as_str());
        let text = trim_for_embedding(u.source_text.as_str());
        let props = chunk_props(
            self.model.as_str(),
            self.task.as_str(),
            u.target_kind,
            u.signature.as_str(),
            u.qualified_name.as_str(),
            u.name_line,
            self.dims,
        );
        let (stmt, params) = chunk_insert(
            cid.as_str(),
            self.repo_id.as_str(),
            self.rel_path.as_str(),
            name.as_str(),
            props.as_str(),
            text.as_str(),
        );
        IndexAction::InsertChunk { stmt, params, vector: self.pos - self.batch_start }
    }

    fn enter_unit(&mut self) -> (r: IndexAction)
        requires
            old(self).wf_core(),
            old(self).batch_start <= old(self).pos <= usable_end(old(self)@),
        ensures
            final(self).wf(),
            enters_unit(old(self)@, final(self)@, r@),
    {
        let ghost v = self@;
        let usable = if self.widths.len() < self.batch_end - self.batch_start {
            self.batch_start + self.widths.len()
        } else {
            self.batch_end
        };
        if self.pos < usable {
            let w = self.widths[self.pos - self.batch_start];
            if w != self.dims {
                match check_embedding_width(w, self.dims, self.units[self.pos].signature.as_str()) {
                    Err(e) => self.stop(e),
                    Ok(()) => {
                        proof {
                            assert(false);
                        }
                        IndexAction::Finished
                    },
                }
            } else {
                let (pk, label, _cid) = self.unit_names();
                self.phase = IndexPhase::ProbeNode;
                IndexAction::Probe(row_probe_sql("n", label, pk.as_str()))
            }
        } else {
            let end = self.batch_end;
            self.open_batch(end)
        }
    }

    fn on_delete(&mut self, event: IndexEvent) -> (r: IndexAction)
        requires
            old(self).wf(),
            old(self).phase == IndexPhase::Delete,
        ensures
            final(self).wf(),
            step_holds(old(self)@, event@, final(self)@, r@),
    {
        match event {
            IndexEvent::Done => {
                self.phase = IndexPhase::ProbeDocument;
                IndexAction::Probe(row_probe_sql("d", "CodeDocument", self.doc_pk.as_str()))
            },
            IndexEvent::Failed(m) => self.stop(cat("delete_file_derivatives failed: ", m.as_str())),
            _ => self.unexpected_answer(),
        }
    }

    fn on_probe_document(&mut self, event: IndexEvent) -> (r: IndexAction)
        requires
            old(self).wf(),
            old(self).phase == IndexPhase::ProbeDocument,
        ensures
            final(self).wf(),
            step_holds(old(self)@, event@, final(self)@, r@),
    {
        match event {
            IndexEvent::Probed(b) => {
                let ghost v = self@;
                let stmt = upsert_code_document_pending(
                    b,
                    self.doc_pk.as_str(),
                    self.repo_id.as_str(),
                    self.rel_path.as_str(),
                    self.stem.as_str(),
                    self.ohash.as_str(),
                    self.repo_root.as_str(),
                );
                proof {
                    let t = choose|t: Seq<char>|
                        stmt@ == #[trigger] document_pending_stmt(b, doc_pk(v), v.repo_id, v.rel_path, v.stem, v.ohash, v.repo_root, t);
                    assert(stmt@ == document_pending_stmt(b, doc_pk(v), v.repo_id, v.rel_path, v.stem, v.ohash, v.repo_root, t));
                }
                self.phase = IndexPhase::WriteDocument;
                self.exists = b;
                IndexAction::Run(stmt)
            },
            IndexEvent::Failed(m) => self.stop(cat("CodeDocument existence probe failed: ", m.as_str())),
            _ => self.unexpected_answer(),
        }
    }

    fn on_write_document(&mut self, event: IndexEvent) -> (r: IndexAction)
        requires
            old(self).wf(),
            old(self).phase == IndexPhase::WriteDocument,
        ensures
            final(self).wf(),
            step_holds(old(self)@, event@, final(self)@, r@),
    {
        match event {
            IndexEvent::Done => {
                self.phase = IndexPhase::ProbeFile;
                IndexAction::Probe(row_probe_sql("f", "File", self.fid.as_str()))
            },
            IndexEvent::Failed(m) => {
                let e = if self.exists {
                    cat("CodeDocument pending update failed: ", m.as_str())
                } else {
                    cat("CodeDocument create failed: ", m.as_str())
                };
                self.stop(e)
            },
            _ => self.unexpected_answer(),
        }
    }

    fn on_probe_file(&mut self, event: IndexEvent) -> (r: IndexAction)
        requires
            old(self).wf(),
            old(self).phase == IndexPhase::ProbeFile,
        ensures
            final(self).wf(),
            step_holds(old(self)@, event@, final(self)@, r@),
    {
        match event {
            IndexEvent::Probed(b) => {
                self.phase = IndexPhase::WriteFile;
                self.exists = b;
                IndexAction::Run(
                    upsert_file_pending(
                        b,
                        self.fid.as_str(),
                        self.repo_id.as_str(),
                        self.rel_path.as_str(),
                        self.stem.as_str(),
                        self.ohash.as_str(),
                        self.repo_root.as_str(),
                    ),
                )
            },
            IndexEvent::Failed(m) => self.stop(cat("File existence probe failed: ", m.as_str())),
            _ => self.unexpected_answer(),
        }
    }

    fn on_write_file(&mut self, event: IndexEvent) -> (r: IndexAction)
        requires
            old(self).wf(),
            old(self).phase == IndexPhase::WriteFile,
        ensures
            final(self).wf(),
            step_holds(old(self)@, event@, final(self)@, r@),
    {
        match event {
            IndexEvent::Done => {
                if self.batch_units == 0 {
                    self.stop(own("--batch-units must be positive"))
                } else {
                    self.open_batch(0)
                }
            },
            IndexEvent::Failed(m) => {
                let e = if self.exists {
                    cat("File pending update failed: ", m.as_str())
                } else {
                    cat("File create failed: ", m.as_str())
                };
                self.stop(e)
            },
            _ => self.unexpected_answer(),
        }
    }

    fn on_embedding(&mut self, event: IndexEvent) -> (r: IndexAction)
        requires
            old(self).wf(),
            old(self).phase == IndexPhase::Embedding,
        ensures
            final(self).wf(),
            step_holds(old(self)@, event@, final(self)@, r@),
    {
        match event {
            IndexEvent::Embedded(ws) => {
                if ws.len() != self.batch_end - self.batch_start {
                    return self.stop(count_mismatch_error(self.batch_end - self.batch_start, ws.len()));
                }
                self.widths = ws;
                self.pos = self.batch_start;
                self.enter_unit()
            },
            IndexEvent::Failed(m) => self.stop(m),
            _ => self.unexpected_answer(),
        }
    }

    fn on_probe_node(&mut self, event: IndexEvent) -> (r: IndexAction)
        requires
            old(self).wf(),
            old(self).phase == IndexPhase::ProbeNode,
        ensures
            final(self).wf(),
            step_holds(old(self)@, event@, final(self)@, r@),
    {
        match event {
            IndexEvent::Probed(b) => {
                let stmt = self.node_write_sql(b);
                self.phase = IndexPhase::WriteNode;
                self.exists = b;
                IndexAction::Run(stmt)
            },
            IndexEvent::Failed(m) => {
                let (pk, label, _cid) = self.unit_names();
                let mut e = cat3(label, " existence probe failed for ", pk.as_str());
                e.append(": ");
                e.append(m.as_str());
                self.stop(e)
            },
            _ => self.unexpected_answer(),
        }
    }

    fn on_write_node(&mut self, event: IndexEvent) -> (r: IndexAction)
        requires
            old(self).wf(),
            old(self).phase == IndexPhase::WriteNode,
        ensures
            final(self).wf(),
            step_holds(old(self)@, event@, final(self)@, r@),
    {
        match event {
            IndexEvent::Done => {
                let (pk, label, _cid) = self.unit_names();
                let probe = defines_sql(self.fid.as_str(), label, pk.as_str()).0;
                if !crate::text::str_eq(self.units[self.pos].target_table, "Class") {
                    let line = self.units[self.pos].name_line;
                    self.registry.record_function_anchor(self.rel_path.as_str(), line, pk);
                }
                self.phase = IndexPhase::ProbeDefines;
                IndexAction::Probe(probe)
            },
            IndexEvent::Failed(m) => {
                let (pk, label, _cid) = self.unit_names();
                let mut e = if self.exists {
                    cat(label, " UPDATE failed for ")
                } else {
                    cat(label, " CREATE failed for ")
                };
                e.append(pk.as_str());
                e.append(": ");
                e.append(m.as_str());
                self.stop(e)
            },
            _ => self.unexpected_answer(),
        }
    }

    fn on_probe_defines(&mut self, event: IndexEvent) -> (r: IndexAction)
        requires
            old(self).wf(),
            old(self).phase == IndexPhase::ProbeDefines,
        ensures
            final(self).wf(),
            step_holds(old(self)@, event@, final(self)@, r@),
    {
        match event {
            IndexEvent::Probed(found) => {
                let (pk, label, cid) = self.unit_names();
                if found {
                    self.phase = IndexPhase::DetachChunk;
                    IndexAction::Run(detach_chunk_sql(cid.as_str()))
                } else {
                    self.phase = IndexPhase::WriteDefines;
                    IndexAction::Run(defines_sql(self.fid.as_str(), label, pk.as_str()).1)
                }
            },
            IndexEvent::Failed(m) => self.stop(cat("defines probe failed: ", m.as_str())),
            _ => self.unexpected_answer(),
        }
    }

    fn on_write_defines(&mut self, event: IndexEvent) -> (r: IndexAction)
        requires
            old(self).wf(),
            old(self).phase == IndexPhase::WriteDefines,
        ensures
            final(self).wf(),
            step_holds(old(self)@, event@, final(self)@, r@),
    {
        match event {
            IndexEvent::Done => {
                let (_pk, _label, cid) = self.unit_names();
                self.phase = IndexPhase::DetachChunk;
                IndexAction::Run(detach_chunk_sql(cid.as_str()))
            },
            IndexEvent::Failed(m) => self.stop(cat("CREATE DEFINES failed: ", m.as_str())),
            _ => self.unexpected_answer(),
        }
    }

    fn on_detach_chunk(&mut self, event: IndexEvent) -> (r: IndexAction)
        requires
            old(self).wf(),
            old(self).phase == IndexPhase::DetachChunk,
        ensures
            final(self).wf(),
            step_holds(old(self)@, event@, final(self)@, r@),
    {
        match event {
            IndexEvent::Done => {
                let a = self.chunk_request();
                self.phase = IndexPhase::InsertChunk;
                a
            },
            IndexEvent::Failed(m) => self.stop(cat("drop chunk failed: ", m.as_str())),
            _ => self.unexpected_answer(),
        }
    }

    fn on_insert_chunk(&mut self, event: IndexEvent) -> (r: IndexAction)
        requires
            old(self).wf(),
            old(self).phase == IndexPhase::InsertChunk,
        ensures
            final(self).wf(),
            step_holds(old(self)@, event@, final(self)@, r@),
    {
        match event {
            IndexEvent::Done => {
                let (pk, label, cid) = self.unit_names();
                self.phase = IndexPhase::ProbeDescribes;
                IndexAction::Probe(describes_sql(cid.as_str(), label, pk.as_str()).0)
            },
            IndexEvent::NotPrepared(m) => self.stop(cat("prepare Chunk insert failed: ", m.as_str())),
            IndexEvent::Failed(m) => {
                let (_pk, _label, cid) = self.unit_names();
                let mut e = cat("Chunk insert execute failed for ", cid.as_str());
                e.append(": ");
                e.append(m.as_str());
                self.stop(e)
            },
            _ => self.unexpected_answer(),
        }
    }

    fn on_probe_describes(&mut self, event: IndexEvent) -> (r: IndexAction)
        requires
            old(self).wf(),
            old(self).phase == IndexPhase::ProbeDescribes,
        ensures
            final(self).wf(),
            step_holds(old(self)@, event@, final(self)@, r@),
    {
        match event {
            IndexEvent::Probed(found) => {
                if found {
                    self.pos = self.pos + 1;
                    self.enter_unit()
                } else {
                    let (pk, label, cid) = self.unit_names();
                    self.phase = IndexPhase::WriteDescribes;
                    IndexAction::Run(describes_sql(cid.as_str(), label, pk.as_str()).1)
                }
            },
            IndexEvent::Failed(m) => self.stop(cat("describes probe failed: ", m.as_str())),
            _ => self.unexpected_answer(),
        }
    }

    fn on_write_describes(&mut self, event: IndexEvent) -> (r: IndexAction)
        requires
            old(self).wf(),
            old(self).phase == IndexPhase::WriteDescribes,
        ensures
            final(self).wf(),
            step_holds(old(self)@, event@, final(self)@, r@),
    {
        match event {
            IndexEvent::Done => {
                self.pos = self.pos + 1;
                self.enter_unit()
            },
            IndexEvent::Failed(m) => self.stop(cat("CREATE DESCRIBES failed: ", m.as_str())),
            _ => self.unexpected_answer(),
        }
    }

    fn on_complete_document(&mut self, event: IndexEvent) -> (r: IndexAction)
        requires
            old(self).wf(),
            old(self).phase == IndexPhase::CompleteDocument,
        ensures
            final(self).wf(),
            step_holds(old(self)@, event@, final(self)@, r@),
    {
        match event {
            IndexEvent::Done => {
                self.phase = IndexPhase::CompleteFile;
                IndexAction::Run(self.file_complete.clone())
            },
            IndexEvent::Failed(m) => self.stop(cat("CodeDocument completion failed: ", m.as_str())),
            _ => self.unexpected_answer(),
        }
    }

    fn on_complete_file(&mut self, event: IndexEvent) -> (r: IndexAction)
        requires
            old(self).wf(),
            old(self).phase == IndexPhase::CompleteFile,
        ensures
            final(self).wf(),
            step_holds(old(self)@, event@, final(self)@, r@),
    {
        match event {
            IndexEvent::Done => {
                self.phase = IndexPhase::Finished;
                IndexAction::Finished
            },
            IndexEvent::Failed(m) => self.stop(cat("File completion failed: ", m.as_str())),
            _ => self.unexpected_answer(),
        }
    }

    /// Takes the answer to the pending request and gives the next request: the statements
    /// and batches of the file in the order the indexer makes them, or the error that
    /// stops it (see `step_holds`).
    pub fn step(&mut self, event: IndexEvent) -> (r: IndexAction)
        requires
            old(self).wf(),
        ensures
            final(self).wf(),
            step_holds(old(self)@, event@, final(self)@, r@),
    {
        match self.phase {
            IndexPhase::Delete => self.on_delete(event),
            IndexPhase::ProbeDocument => self.on_probe_document(event),
            IndexPhase::WriteDocument => self.on_write_document(event),
            IndexPhase::ProbeFile => self.on_probe_file(event),
            IndexPhase::WriteFile => self.on_write_file(event),
            IndexPhase::Embedding => self.on_embedding(event),
            IndexPhase::ProbeNode => self.on_probe_node(event),
            IndexPhase::WriteNode => self.on_write_node(event),
            IndexPhase::ProbeDefines => self.on_probe_defines(event),
            IndexPhase::WriteDefines => self.on_write_defines(event),
            IndexPhase::DetachChunk => self.on_detach_chunk(event),
            IndexPhase::InsertChunk => self.on_insert_chunk(event),
            IndexPhase::ProbeDescribes => self.on_probe_describes(event),
            IndexPhase::WriteDescribes => self.on_write_describes(event),
            IndexPhase::CompleteDocument => self.on_complete_document(event),
            IndexPhase::CompleteFile => self.on_complete_file(event),
            IndexPhase::Finished => IndexAction::Finished,
            IndexPhase::Stopped => IndexAction::Stopped(self.error.clone()),
        }
    }
}

} // verus!
