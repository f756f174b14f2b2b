//! The records the workspace store writes: new and updated notes and boards, ingest
//! receipts, note history entries, and the lookup of a note's file in the vault.
use vstd::prelude::*;

use crate::model::{
    cat3, opt_view, own, strs_view, NoteHistoryItem, WorkspaceBoard, WorkspaceBoardObject,
    WorkspaceConnector, WorkspaceIngestPayload, WorkspaceNoteDocument,
};
use crate::observability::{is_uuid_text, now_millis, uuid_v4};
use crate::text::{decimal_int, fmt_i64, string_of};
use crate::vault::{parse_vault_filename, slug_spec, slugify, vault_name_parts};

verus! {

/// A fresh note as the store creates it: given id, workspace, title, body, tags and
/// project, slug derived from the title, no summary or entity hints, source `user`,
/// status `not_ingested`, created and updated at `now`, no archive time, path or revision.
pub open spec fn is_new_note(
    r: WorkspaceNoteDocument,
    note_id: Seq<char>,
    workspace_id: Seq<char>,
    title: Seq<char>,
    body_markdown: Seq<char>,
    tags: Seq<Seq<char>>,
    project_id: Option<Seq<char>>,
    now: i64,
) -> bool {
    &&& r.note_id@ == note_id
    &&& r.workspace_id@ == workspace_id
    &&& opt_view(r.project_id) == project_id
    &&& r.slug@ == slug_spec(title)
    &&& r.title@ == title
    &&& r.body_markdown@ == body_markdown
    &&& r.summary is None
    &&& strs_view(r.tags@) == tags
    &&& r.entity_hints@.len() == 0
    &&& r.source@ == "user"@
    &&& r.created_at == now
    &&& r.updated_at == now
    &&& r.archived_at is None
    &&& r.graph_status@ == "not_ingested"@
    &&& r.markdown_path is None
    &&& r.git_revision is None
}

/// The note record the store creates for the given id and time.
pub fn note_record(
    note_id: String,
    workspace_id: &str,
    title: &str,
    body_markdown: &str,
    tags: Vec<String>,
    project_id: Option<String>,
    now: i64,
) -> (r: WorkspaceNoteDocument)
    ensures
        is_new_note(
            r,
            note_id@,
            workspace_id@,
            title@,
            body_markdown@,
            strs_view(tags@),
            opt_view(project_id),
            now,
        ),
{
    WorkspaceNoteDocument {
        note_id,
        workspace_id: own(workspace_id),
        project_id,
        slug: slugify(title),
        title: own(title),
        body_markdown: own(body_markdown),
        summary: None,
        tags,
        entity_hints: Vec::new(),
        source: own("user"),
        created_at: now,
        updated_at: now,
        archived_at: None,
        graph_status: own("not_ingested"),
        markdown_path: None,
        git_revision: None,
    }
}

/// A new note with a fresh UUID as its id, created now.
pub fn new_note(
    workspace_id: &str,
    title: &str,
    body_markdown: &str,
    tags: Vec<String>,
    project_id: Option<String>,
) -> (r: WorkspaceNoteDocument)
    ensures
        is_uuid_text(r.note_id@),
        is_new_note(
            r,
            r.note_id@,
            workspace_id@,
            title@,
            body_markdown@,
            strs_view(tags@),
            opt_view(project_id),
            r.created_at,
        ),
{
    let now = now_millis();
    let note_id = uuid_v4();
    note_record(note_id, workspace_id, title, body_markdown, tags, project_id, now)
}

/// `note` after an edit: new title (and the slug derived from it), body, tags and
/// project, updated at `now`; every other field kept.
pub open spec fn is_note_update(
    r: WorkspaceNoteDocument,
    note: WorkspaceNoteDocument,
    title: Seq<char>,
    body_markdown: Seq<char>,
    tags: Seq<Seq<char>>,
    project_id: Option<Seq<char>>,
    now: i64,
) -> bool {
    &&& r.note_id == note.note_id
    &&& r.workspace_id == note.workspace_id
    &&& opt_view(r.project_id) == project_id
    &&& r.slug@ == slug_spec(title)
    &&& r.title@ == title
    &&& r.body_markdown@ == body_markdown
    &&& r.summary == note.summary
    &&& strs_view(r.tags@) == tags
    &&& r.entity_hints == note.entity_hints
    &&& r.source == note.source
    &&& r.created_at == note.created_at
    &&& r.updated_at == now
    &&& r.archived_at == note.archived_at
    &&& r.graph_status == note.graph_status
    &&& r.markdown_path == note.markdown_path
    &&& r.git_revision == note.git_revision
}

/// Applies an edit to a note.
pub fn apply_note_update(
    note: WorkspaceNoteDocument,
    title: &str,
    body_markdown: &str,
    tags: Vec<String>,
    project_id: Option<String>,
    now: i64,
) -> (r: WorkspaceNoteDocument)
    ensures
        is_note_update(
            r,
            note,
            title@,
            body_markdown@,
            strs_view(tags@),
            opt_view(project_id),
            now,
        ),
{
    let mut note = note;
    note.title = own(title);
    note.slug = slugify(title);
    note.body_markdown = own(body_markdown);
    note.tags = tags;
    note.project_id = project_id;
    note.updated_at = now;
    note
}

/// The slug of the first file name in `names` that names the note `note_id`
/// (`slug--note_id.md`).
pub open spec fn vault_slug_of(names: Seq<Seq<char>>, note_id: Seq<char>) -> Option<Seq<char>>
    decreases names.len(),
{
    if names.len() == 0 {
        None
    } else {
        match vault_name_parts(names[0]) {
            Some((slug, id)) if id == note_id => Some(slug),
            _ => vault_slug_of(names.drop_first(), note_id),
        }
    }
}

/// Finds, among the file names of a vault notes directory, the slug under which the note
/// `note_id` is stored.
pub fn find_vault_slug(names: &Vec<String>, note_id: &str) -> (r: Option<String>)
    ensures
        opt_view(r) == vault_slug_of(strs_view(names@), note_id@),
{
    let mut i: usize = 0;
    assert(strs_view(names@).skip(0) =~= strs_view(names@));
    while i < names.len()
        invariant
            i <= names@.len(),
            vault_slug_of(strs_view(names@), note_id@) == vault_slug_of(
                strs_view(names@).skip(i as int),
                note_id@,
            ),
        decreases names@.len() - i,
    {
        let ghost rest = strs_view(names@).skip(i as int);
        assert(rest[0] == names@[i as int]@);
        assert(rest.drop_first() =~= strs_view(names@).skip(i + 1));
        match parse_vault_filename(names[i].as_str()) {
            Some((slug, id)) => {
                if crate::text::str_eq(id.as_str(), note_id) {
                    return Some(slug);
                }
            },
            None => {},
        }
        i = i + 1;
    }
    assert(strs_view(names@).skip(i as int) =~= Seq::<Seq<char>>::empty());
    None
}

/// The history entries of a note from `(sha, unix time, subject)` triples of its commits,
/// the time written in decimal.
pub fn history_items(history: Vec<(String, i64, String)>) -> (r: Vec<NoteHistoryItem>)
    ensures
        r@.len() == history@.len(),
        forall|i: int|
            0 <= i < r@.len() ==> {
                &&& (#[trigger] r@[i]).sha@ == history@[i].0@
                &&& r@[i].timestamp@ == decimal_int(history@[i].1 as int)
                &&& r@[i].subject@ == history@[i].2@
            },
{
    let mut r: Vec<NoteHistoryItem> = Vec::new();
    let mut i: usize = 0;
    while i < history.len()
        invariant
            i <= history@.len(),
            r@.len() == i,
            forall|j: int|
                0 <= j < i ==> {
                    &&& (#[trigger] r@[j]).sha@ == history@[j].0@
                    &&& r@[j].timestamp@ == decimal_int(history@[j].1 as int)
                    &&& r@[j].subject@ == history@[j].2@
                },
        decreases history@.len() - i,
    {
        let (sha, t, subject) = (&history[i].0, history[i].1, &history[i].2);
        r.push(
            NoteHistoryItem {
                sha: own(sha.as_str()),
                timestamp: string_of(&fmt_i64(t)),
                subject: own(subject.as_str()),
            },
        );
        i = i + 1;
    }
    r
}

/// An empty JSON object, `{}`: `serde_json::Value::Object(serde_json::Map::new())`.
#[verifier::external_body]
fn empty_json_object() -> (r: serde_json::Value) {
    serde_json::Value::Object(serde_json::Map::new())
}

/// A fresh board as the store creates it: given id, workspace and title, type as given
/// (`canvas` when absent), state `active`, no project, description, tags, objects or
/// connectors, counts zero, created and updated at `now`, never ingested, status
/// `not_ingested`. The canvas document is the given one, or an empty JSON object.
pub open spec fn is_new_board(
    r: WorkspaceBoard,
    board_id: Seq<char>,
    workspace_id: Seq<char>,
    title: Seq<char>,
    board_type: Option<Seq<char>>,
    now: i64,
) -> bool {
    &&& r.board_id@ == board_id
    &&& r.workspace_id@ == workspace_id
    &&& r.project_id is None
    &&& r.title@ == title
    &&& r.description is None
    &&& r.tags@.len() == 0
    &&& r.board_type@ == (match board_type {
        Some(t) => t,
        None => "canvas"@,
    })
    &&& r.board_state@ == "active"@
    &&& r.objects@.len() == 0
    &&& r.connectors@.len() == 0
    &&& r.object_count == 0
    &&& r.connector_count == 0
    &&& r.created_at == now
    &&& r.updated_at == now
    &&& r.ingested_at is None
    &&& r.graph_status@ == "not_ingested"@
}

/// The board record the store creates for the given id and time.
pub fn board_record(
    board_id: String,
    workspace_id: &str,
    title: &str,
    board_type: Option<String>,
    tldraw_document: Option<serde_json::Value>,
    now: i64,
) -> (r: WorkspaceBoard)
    ensures
        is_new_board(r, board_id@, workspace_id@, title@, opt_view(board_type), now),
        tldraw_document matches Some(d) ==> r.tldraw_document == d,
{
    let board_type = match board_type {
        Some(t) => t,
        None => own("canvas"),
    };
    let tldraw_document = match tldraw_document {
        Some(d) => d,
        None => empty_json_object(),
    };
    WorkspaceBoard {
        board_id,
        workspace_id: own(workspace_id),
        project_id: None,
        title: own(title),
        description: None,
        tags: Vec::new(),
        board_type,
        board_state: own("active"),
        tldraw_document,
        objects: Vec::new(),
        connectors: Vec::new(),
        object_count: 0,
        connector_count: 0,
        created_at: now,
        updated_at: now,
        ingested_at: None,
        graph_status: own("not_ingested"),
    }
}

/// A new board with a fresh UUID as its id, created now.
pub fn new_board(
    workspace_id: &str,
    title: &str,
    board_type: Option<String>,
    tldraw_document: Option<serde_json::Value>,
) -> (r: WorkspaceBoard)
    ensures
        is_uuid_text(r.board_id@),
        is_new_board(r, r.board_id@, workspace_id@, title@, opt_view(board_type), r.created_at),
        tldraw_document matches Some(d) ==> r.tldraw_document == d,
{
    let now = now_millis();
    let board_id = uuid_v4();
    board_record(board_id, workspace_id, title, board_type, tldraw_document, now)
}

/// Metadata sent with a board update beyond title, canvas document and geometry.
#[derive(Debug, Clone)]
pub struct BoardUpdateMeta {
    pub workspace_id: String,
    pub description: Option<String>,
    pub tags: Option<Vec<String>>,
    pub board_state: Option<String>,
}

impl BoardUpdateMeta {
    /// No workspace check and no metadata changes.
    pub fn empty() -> (r: BoardUpdateMeta)
        ensures
            r.workspace_id@.len() == 0,
            r.description is None,
            r.tags is None,
            r.board_state is None,
    {
        BoardUpdateMeta {
            workspace_id: String::new(),
            description: None,
            tags: None,
            board_state: None,
        }
    }
}

/// The error of an update that names another workspace than the board's.
pub open spec fn workspace_mismatch(board_ws: Seq<char>, requested: Seq<char>) -> Seq<char> {
    "workspace_id mismatch: board is in "@ + board_ws + ", request specified "@ + requested
}

/// Applies an update to a stored board. Fails when `meta` names a workspace other than
/// the board's; otherwise sets title, canvas document, objects and connectors (with their
/// counts), the metadata that `meta` carries, and `updated_at = now`, keeping the rest.
pub fn apply_board_update(
    board: WorkspaceBoard,
    title: &str,
    tldraw_document: serde_json::Value,
    objects: Vec<WorkspaceBoardObject>,
    connectors: Vec<WorkspaceConnector>,
    meta: BoardUpdateMeta,
    now: i64,
) -> (r: Result<WorkspaceBoard, String>)
    ensures
        (meta.workspace_id@.len() != 0 && meta.workspace_id@ != board.workspace_id@) ==> r
            == Err::<WorkspaceBoard, String>(r->Err_0) && r->Err_0@ == workspace_mismatch(
            board.workspace_id@,
            meta.workspace_id@,
        ),
        !(meta.workspace_id@.len() != 0 && meta.workspace_id@ != board.workspace_id@) ==> r is Ok,
        r matches Ok(b) ==> {
            &&& b.board_id == board.board_id
            &&& b.workspace_id == board.workspace_id
            &&& b.project_id == board.project_id
            &&& b.title@ == title@
            &&& b.description == (match meta.description {
                Some(d) => Some(d),
                None => board.description,
            })
            &&& b.tags == (match meta.tags {
                Some(t) => t,
                None => board.tags,
            })
            &&& b.board_type == board.board_type
            &&& b.board_state == (match meta.board_state {
                Some(s) => s,
                None => board.board_state,
            })
            &&& b.tldraw_document == tldraw_document
            &&& b.objects == objects
            &&& b.connectors == connectors
            &&& b.object_count == objects@.len() as i32
            &&& b.connector_count == connectors@.len() as i32
            &&& b.created_at == board.created_at
            &&& b.updated_at == now
            &&& b.ingested_at == board.ingested_at
            &&& b.graph_status == board.graph_status
        },
{
    if meta.workspace_id.as_str().unicode_len() != 0 && !crate::text::str_eq(
        meta.workspace_id.as_str(),
        board.workspace_id.as_str(),
    ) {
        let mut e = cat3(
            "workspace_id mismatch: board is in ",
            board.workspace_id.as_str(),
            ", request specified ",
        );
        e.append(meta.workspace_id.as_str());
        return Err(e);
    }
    let mut b = board;
    b.title = own(title);
    b.tldraw_document = tldraw_document;
    let object_count = objects.len() as i32;
    let connector_count = connectors.len() as i32;
    b.objects = objects;
    b.connectors = connectors;
    b.object_count = object_count;
    b.connector_count = connector_count;
    match meta.description {
        Some(d) => {
            b.description = Some(d);
        },
        None => {},
    }
    match meta.tags {
        Some(t) => {
            b.tags = t;
        },
        None => {},
    }
    match meta.board_state {
        Some(s) => {
            b.board_state = s;
        },
        None => {},
    }
    b.updated_at = now;
    Ok(b)
}

/// An ingest receipt: given id, scope, board, workspace, title, object and connector ids
/// (with their counts) and time; no project, empty summary and tags, maturity `draft`,
/// no entities or relations, status `ingested`.
pub open spec fn is_ingest_payload(
    r: WorkspaceIngestPayload,
    ingest_id: Seq<char>,
    scope: Seq<char>,
    workspace_id: Seq<char>,
    board_id: Seq<char>,
    title: Seq<char>,
    object_ids: Seq<Seq<char>>,
    connector_ids: Seq<Seq<char>>,
    now: i64,
) -> bool {
    &&& r.ingest_id@ == ingest_id
    &&& r.ingest_scope@ == scope
    &&& r.board_id@ == board_id
    &&& r.workspace_id@ == workspace_id
    &&& r.project_id is None
    &&& r.title@ == title
    &&& r.summary@.len() == 0
    &&& r.tags@.len() == 0
    &&& r.maturity@ == "draft"@
    &&& strs_view(r.object_ids@) == object_ids
    &&& strs_view(r.connector_ids@) == connector_ids
    &&& r.object_count == object_ids.len() as i32
    &&& r.connector_count == connector_ids.len() as i32
    &&& r.entity_count == 0
    &&& r.relation_count == 0
    &&& r.graph_status@ == "ingested"@
    &&& r.ingested_at == now
}

/// The receipt of ingesting a selection of a board's objects and connectors.
pub fn selection_ingest_payload(
    ingest_id: String,
    workspace_id: &str,
    board_id: &str,
    title: &str,
    object_ids: Vec<String>,
    connector_ids: Vec<String>,
    now: i64,
) -> (r: WorkspaceIngestPayload)
    ensures
        is_ingest_payload(
            r,
            ingest_id@,
            "selection"@,
            workspace_id@,
            board_id@,
            title@,
            strs_view(object_ids@),
            strs_view(connector_ids@),
            now,
        ),
{
    let object_count = object_ids.len() as i32;
    let connector_count = connector_ids.len() as i32;
    WorkspaceIngestPayload {
        ingest_id,
        ingest_scope: own("selection"),
        board_id: own(board_id),
        workspace_id: own(workspace_id),
        project_id: None,
        title: own(title),
        summary: String::new(),
        tags: Vec::new(),
        maturity: own("draft"),
        object_ids,
        connector_ids,
        object_count,
        connector_count,
        entity_count: 0,
        relation_count: 0,
        graph_status: own("ingested"),
        ingested_at: now,
    }
}

/// The receipt of ingesting a whole board.
pub fn board_ingest_payload(
    ingest_id: String,
    workspace_id: &str,
    board_id: &str,
    title: &str,
    now: i64,
) -> (r: WorkspaceIngestPayload)
    ensures
        is_ingest_payload(
            r,
            ingest_id@,
            "board"@,
            workspace_id@,
            board_id@,
            title@,
            Seq::empty(),
            Seq::empty(),
            now,
        ),
{
    let mut r = selection_ingest_payload(
        ingest_id,
        workspace_id,
        board_id,
        title,
        Vec::new(),
        Vec::new(),
        now,
    );
    r.ingest_scope = own("board");
    assert(strs_view(r.object_ids@) =~= Seq::empty());
    assert(strs_view(r.connector_ids@) =~= Seq::empty());
    r
}

/// A receipt for ingesting a whole board, with a fresh UUID as its id, made now.
pub fn new_board_ingest(workspace_id: &str, board_id: &str, title: &str) -> (r:
    WorkspaceIngestPayload)
    ensures
        is_uuid_text(r.ingest_id@),
        is_ingest_payload(
            r,
            r.ingest_id@,
            "board"@,
            workspace_id@,
            board_id@,
            title@,
            Seq::empty(),
            Seq::empty(),
            r.ingested_at,
        ),
{
    let now = now_millis();
    let id = uuid_v4();
    board_ingest_payload(id, workspace_id, board_id, title, now)
}

/// A receipt for ingesting a selection, with a fresh UUID as its id, made now.
pub fn new_selection_ingest(
    workspace_id: &str,
    board_id: &str,
    title: &str,
    object_ids: Vec<String>,
    connector_ids: Vec<String>,
) -> (r: WorkspaceIngestPayload)
    ensures
        is_uuid_text(r.ingest_id@),
        is_ingest_payload(
            r,
            r.ingest_id@,
            "selection"@,
            workspace_id@,
            board_id@,
            title@,
            strs_view(object_ids@),
            strs_view(connector_ids@),
            r.ingested_at,
        ),
{
    let now = now_millis();
    let id = uuid_v4();
    selection_ingest_payload(id, workspace_id, board_id, title, object_ids, connector_ids, now)
}

/// The file name of a receipt: `<ingest>--<board>.json` for a whole board,
/// `<ingest>--selection.json` for a selection.
pub fn ingest_file_name(payload: &WorkspaceIngestPayload) -> (r: String)
    ensures
        r@ == payload.ingest_id@ + "--"@ + (if payload.ingest_scope@ == "selection"@ {
            "selection"@
        } else {
            payload.board_id@
        }) + ".json"@,
{
    let tail = if crate::text::str_eq(payload.ingest_scope.as_str(), "selection") {
        own("selection")
    } else {
        own(payload.board_id.as_str())
    };
    let mut r = cat3(payload.ingest_id.as_str(), "--", tail.as_str());
    r.append(".json");
    r
}

/// The note an API answer carries when no real note can be given: id and slug `error`,
/// the given workspace, empty title and body, no project, summary, tags or hints,
/// source `system`, created and updated at `now`, status `not_ingested`, no paths.
pub fn placeholder_note(workspace_id: &str, now: i64) -> (r: WorkspaceNoteDocument)
    ensures
        r.note_id@ == "error"@,
        r.workspace_id@ == workspace_id@,
        r.project_id is None,
        r.slug@ == "error"@,
        r.title@.len() == 0,
        r.body_markdown@.len() == 0,
        r.summary is None,
        r.tags@.len() == 0,
        r.entity_hints@.len() == 0,
        r.source@ == "system"@,
        r.created_at == now,
        r.updated_at == now,
        r.archived_at is None,
        r.graph_status@ == "not_ingested"@,
        r.markdown_path is None,
        r.git_revision is None,
{
    WorkspaceNoteDocument {
        note_id: own("error"),
        workspace_id: own(workspace_id),
        project_id: None,
        slug: own("error"),
        title: String::new(),
        body_markdown: String::new(),
        summary: None,
        tags: Vec::new(),
        entity_hints: Vec::new(),
        source: own("system"),
        created_at: now,
        updated_at: now,
        archived_at: None,
        graph_status: own("not_ingested"),
        markdown_path: None,
        git_revision: None,
    }
}

/// The board an API answer carries when the board cannot be read: the given id and
/// workspace, empty title, type `canvas`, otherwise as a fresh board made at `now`.
pub fn placeholder_board(workspace_id: &str, board_id: &str, now: i64) -> (r: WorkspaceBoard)
    ensures
        is_new_board(r, board_id@, workspace_id@, Seq::empty(), None, now),
{
    let empty = "";
    proof {
        reveal_strlit("");
        assert(empty@ =~= Seq::<char>::empty());
    }
    let r = board_record(own(board_id), workspace_id, empty, None, None, now);
    assert(r.title@ == Seq::<char>::empty());
    assert(r.board_type@ == "canvas"@);
    r
}

/// The receipt the ingest endpoints answer with while ingestion is not wired: id `stub`,
/// the given scope, board, workspace, title and ids, no counts, maturity `draft`, status
/// `stub`, made at `now`.
pub open spec fn is_ingest_stub(
    r: WorkspaceIngestPayload,
    scope: Seq<char>,
    board_id: Seq<char>,
    workspace_id: Seq<char>,
    title: Seq<char>,
    object_ids: Seq<Seq<char>>,
    connector_ids: Seq<Seq<char>>,
    now: i64,
) -> bool {
    &&& r.ingest_id@ == "stub"@
    &&& r.ingest_scope@ == scope
    &&& r.board_id@ == board_id
    &&& r.workspace_id@ == workspace_id
    &&& r.project_id is None
    &&& r.title@ == title
    &&& r.summary@.len() == 0
    &&& r.tags@.len() == 0
    &&& r.maturity@ == "draft"@
    &&& strs_view(r.object_ids@) == object_ids
    &&& strs_view(r.connector_ids@) == connector_ids
    &&& r.object_count == 0
    &&& r.connector_count == 0
    &&& r.entity_count == 0
    &&& r.relation_count == 0
    &&& r.graph_status@ == "stub"@
    &&& r.ingested_at == now
}

fn ingest_stub(
    scope: &str,
    board_id: String,
    workspace_id: String,
    title: &str,
    object_ids: Vec<String>,
    connector_ids: Vec<String>,
    now: i64,
) -> (r: WorkspaceIngestPayload)
    ensures
        is_ingest_stub(
            r,
            scope@,
            board_id@,
            workspace_id@,
            title@,
            strs_view(object_ids@),
            strs_view(connector_ids@),
            now,
        ),
{
    WorkspaceIngestPayload {
        ingest_id: own("stub"),
        ingest_scope: own(scope),
        board_id,
        workspace_id,
        project_id: None,
        title: own(title),
        summary: String::new(),
        tags: Vec::new(),
        maturity: own("draft"),
        object_ids,
        connector_ids,
        object_count: 0,
        connector_count: 0,
        entity_count: 0,
        relation_count: 0,
        graph_status: own("stub"),
        ingested_at: now,
    }
}

/// The stub receipt of the whole-board ingest endpoint.
pub fn board_ingest_stub(board_id: String, workspace_id: String, now: i64) -> (r:
    WorkspaceIngestPayload)
    ensures
        is_ingest_stub(
            r,
            "board"@,
            board_id@,
            workspace_id@,
            "Stub Ingest"@,
            Seq::empty(),
            Seq::empty(),
            now,
        ),
{
    let r = ingest_stub("board", board_id, workspace_id, "Stub Ingest", Vec::new(), Vec::new(), now);
    assert(strs_view(Seq::<String>::empty()) =~= Seq::empty());
    r
}

/// The stub receipt of the selection ingest endpoint.
pub fn selection_ingest_stub(
    board_id: String,
    workspace_id: String,
    object_ids: Vec<String>,
    connector_ids: Vec<String>,
    now: i64,
) -> (r: WorkspaceIngestPayload)
    ensures
        is_ingest_stub(
            r,
            "selection"@,
            board_id@,
            workspace_id@,
            "Stub Selection Ingest"@,
            strs_view(object_ids@),
            strs_view(connector_ids@),
            now,
        ),
{
    ingest_stub(
        "selection",
        board_id,
        workspace_id,
        "Stub Selection Ingest",
        object_ids,
        connector_ids,
        now,
    )
}

} // verus!
