//! Workspace records: notes, boards, board objects, connectors, ingest receipts and graph
//! payloads. Timestamps are milliseconds since the Unix epoch.
use vstd::prelude::*;

verus! {

/// The JSON value type of `serde_json`, carried through unread.
#[verifier::external_type_specification]
#[verifier::external_body]
pub struct ExJsonValue(serde_json::Value);

/// A note, persisted as JSON in the store and as markdown with frontmatter in the vault.
#[derive(Debug, Clone)]
pub struct WorkspaceNoteDocument {
    pub note_id: String,
    pub workspace_id: String,
    pub project_id: Option<String>,
    pub slug: String,
    pub title: String,
    pub body_markdown: String,
    pub summary: Option<String>,
    pub tags: Vec<String>,
    pub entity_hints: Vec<String>,
    pub source: String,
    pub created_at: i64,
    pub updated_at: i64,
    pub archived_at: Option<i64>,
    pub graph_status: String,
    pub markdown_path: Option<String>,
    pub git_revision: Option<String>,
}

/// An object placed on a board (note card, text card, graph reference).
#[derive(Debug, Clone)]
pub struct WorkspaceBoardObject {
    pub object_id: String,
    pub board_id: String,
    pub workspace_id: String,
    pub project_id: Option<String>,
    pub object_type: String,
    pub title: Option<String>,
    pub summary: Option<String>,
    pub note_id: Option<String>,
    pub asset_id: Option<String>,
    pub artifact_id: Option<String>,
    pub graph_entity_name: Option<String>,
    pub graph_source_id: Option<String>,
    pub tags: Vec<String>,
    pub ingest_eligible: bool,
    pub locked: bool,
    pub created_at: i64,
    pub updated_at: i64,
}

/// A connector between two board objects.
#[derive(Debug, Clone)]
pub struct WorkspaceConnector {
    pub connector_id: String,
    pub board_id: String,
    pub workspace_id: String,
    pub project_id: Option<String>,
    pub from_object_id: String,
    pub to_object_id: String,
    pub connector_type: String,
    pub relation_intent: String,
    pub custom_label: Option<String>,
    pub user_authored_summary: Option<String>,
    pub ingest_eligible: bool,
    pub created_at: i64,
    pub updated_at: i64,
}

/// A board with its canvas document, objects and connectors.
#[derive(Debug)]
pub struct WorkspaceBoard {
    pub board_id: String,
    pub workspace_id: String,
    pub project_id: Option<String>,
    pub title: String,
    pub description: Option<String>,
    pub tags: Vec<String>,
    pub board_type: String,
    pub board_state: String,
    pub tldraw_document: serde_json::Value,
    pub objects: Vec<WorkspaceBoardObject>,
    pub connectors: Vec<WorkspaceConnector>,
    pub object_count: i32,
    pub connector_count: i32,
    pub created_at: i64,
    pub updated_at: i64,
    pub ingested_at: Option<i64>,
    pub graph_status: String,
}

/// Receipt of ingesting a board or a selection of it.
#[derive(Debug, Clone)]
pub struct WorkspaceIngestPayload {
    pub ingest_id: String,
    pub ingest_scope: String,
    pub board_id: String,
    pub workspace_id: String,
    pub project_id: Option<String>,
    pub title: String,
    pub summary: String,
    pub tags: Vec<String>,
    pub maturity: String,
    pub object_ids: Vec<String>,
    pub connector_ids: Vec<String>,
    pub object_count: i32,
    pub connector_count: i32,
    pub entity_count: i32,
    pub relation_count: i32,
    pub graph_status: String,
    pub ingested_at: i64,
}

/// One `key: value` entry of graph metadata; `None` stands for JSON `null`.
#[derive(Debug, Clone)]
pub struct MetaEntry {
    pub key: String,
    pub value: MetaValue,
}

/// A metadata value: JSON `null`, a string, or a list of strings.
#[derive(Debug, Clone)]
pub enum MetaValue {
    Null,
    Text(String),
    List(Vec<String>),
}

/// Mathematical value of a metadata value.
pub enum MetaJson {
    Null,
    Text(Seq<char>),
    List(Seq<Seq<char>>),
}

/// A string value.
pub open spec fn mtext(s: Seq<char>) -> MetaJson {
    MetaJson::Text(s)
}

/// A string value, or `null` when absent.
pub open spec fn mopt(o: Option<Seq<char>>) -> MetaJson {
    match o {
        Some(s) => MetaJson::Text(s),
        None => MetaJson::Null,
    }
}

/// Mathematical value of a metadata value.
pub open spec fn value_view(v: MetaValue) -> MetaJson {
    match v {
        MetaValue::Null => MetaJson::Null,
        MetaValue::Text(s) => MetaJson::Text(s@),
        MetaValue::List(l) => MetaJson::List(strs_view(l@)),
    }
}

/// A graph node.
#[derive(Debug, Clone)]
pub struct WorkspaceGraphNode {
    pub node_id: String,
    pub node_type: String,
    pub title: String,
    pub subtitle: Option<String>,
    pub metadata: Vec<MetaEntry>,
}

/// A directed graph edge.
#[derive(Debug, Clone)]
pub struct WorkspaceGraphEdge {
    pub edge_id: String,
    pub from_node_id: String,
    pub to_node_id: String,
    pub relation_type: String,
    pub label: Option<String>,
    pub metadata: Vec<MetaEntry>,
}

/// What a graph payload is rooted at.
#[derive(Debug, Clone)]
pub struct WorkspaceGraphSeed {
    pub seed_type: String,
    pub seed_id: String,
    pub title: String,
}

/// Response of the graph routes.
#[derive(Debug, Clone)]
pub struct GraphResponse {
    pub status: String,
    pub seed: WorkspaceGraphSeed,
    pub nodes: Vec<WorkspaceGraphNode>,
    pub edges: Vec<WorkspaceGraphEdge>,
}

/// A git revision of a note.
#[derive(Debug, Clone)]
pub struct NoteHistoryItem {
    pub sha: String,
    pub timestamp: String,
    pub subject: String,
}

/// Git history of a note.
#[derive(Debug, Clone)]
pub struct NoteHistoryResponse {
    pub status: String,
    pub items: Vec<NoteHistoryItem>,
}

/// Which workspace features are on.
#[derive(Debug, Clone, Copy, PartialEq, Eq, Structural)]
pub struct WorkspaceFeatureFlags {
    pub notes: bool,
    pub boards: bool,
    pub connectors: bool,
    pub graph_view: bool,
    pub manual_ingest: bool,
    pub auto_ingest: bool,
}

/// The workspace a client works in.
#[derive(Debug, Clone)]
pub struct WorkspaceInfo {
    pub workspace_id: String,
    pub default_project_id: Option<String>,
    pub features: WorkspaceFeatureFlags,
}

/// What a client learns when it starts.
#[derive(Debug, Clone)]
pub struct WorkspaceBootstrapPayload {
    pub status: String,
    pub workspace: WorkspaceInfo,
}

/// The bootstrap answer: workspace `default` without a default project; notes, boards,
/// connectors and manual ingest on; graph view and automatic ingest off.
pub fn bootstrap_payload() -> (r: WorkspaceBootstrapPayload)
    ensures
        r.status@ == "ok"@,
        r.workspace.workspace_id@ == "default"@,
        r.workspace.default_project_id is None,
        r.workspace.features == (WorkspaceFeatureFlags {
            notes: true,
            boards: true,
            connectors: true,
            graph_view: false,
            manual_ingest: true,
            auto_ingest: false,
        }),
{
    WorkspaceBootstrapPayload {
        status: own("ok"),
        workspace: WorkspaceInfo {
            workspace_id: own("default"),
            default_project_id: None,
            features: WorkspaceFeatureFlags {
                notes: true,
                boards: true,
                connectors: true,
                graph_view: false,
                manual_ingest: true,
                auto_ingest: false,
            },
        },
    }
}

/// Mathematical value of an optional string.
pub open spec fn opt_view(o: Option<String>) -> Option<Seq<char>> {
    match o {
        Some(s) => Some(s@),
        None => None,
    }
}

/// Mathematical value of a list of strings.
pub open spec fn strs_view(v: Seq<String>) -> Seq<Seq<char>> {
    v.map_values(|s: String| s@)
}

/// Mathematical value of a metadata entry.
pub open spec fn meta_view(m: MetaEntry) -> (Seq<char>, MetaJson) {
    (m.key@, value_view(m.value))
}

/// Mathematical value of metadata.
pub open spec fn metas_view(v: Seq<MetaEntry>) -> Seq<(Seq<char>, MetaJson)> {
    v.map_values(|m: MetaEntry| meta_view(m))
}

/// Mathematical value of a graph node.
pub struct NodeView {
    pub node_id: Seq<char>,
    pub node_type: Seq<char>,
    pub title: Seq<char>,
    pub subtitle: Option<Seq<char>>,
    pub metadata: Seq<(Seq<char>, MetaJson)>,
}

/// Mathematical value of a graph edge.
pub struct EdgeView {
    pub edge_id: Seq<char>,
    pub from_node_id: Seq<char>,
    pub to_node_id: Seq<char>,
    pub relation_type: Seq<char>,
    pub label: Option<Seq<char>>,
    pub metadata: Seq<(Seq<char>, MetaJson)>,
}

impl View for WorkspaceGraphNode {
    type V = NodeView;

    open spec fn view(&self) -> NodeView {
        NodeView {
            node_id: self.node_id@,
            node_type: self.node_type@,
            title: self.title@,
            subtitle: opt_view(self.subtitle),
            metadata: metas_view(self.metadata@),
        }
    }
}

impl View for WorkspaceGraphEdge {
    type V = EdgeView;

    open spec fn view(&self) -> EdgeView {
        EdgeView {
            edge_id: self.edge_id@,
            from_node_id: self.from_node_id@,
            to_node_id: self.to_node_id@,
            relation_type: self.relation_type@,
            label: opt_view(self.label),
            metadata: metas_view(self.metadata@),
        }
    }
}

pub open spec fn nodes_view(v: Seq<WorkspaceGraphNode>) -> Seq<NodeView> {
    v.map_values(|n: WorkspaceGraphNode| n@)
}

pub open spec fn edges_view(v: Seq<WorkspaceGraphEdge>) -> Seq<EdgeView> {
    v.map_values(|e: WorkspaceGraphEdge| e@)
}

/// A string with the characters of `s`.
pub fn own(s: &str) -> (r: String)
    ensures
        r@ == s@,
{
    String::from_str(s)
}

/// `a` followed by `b`.
pub fn cat(a: &str, b: &str) -> (r: String)
    ensures
        r@ == a@ + b@,
{
    let mut r = String::from_str(a);
    r.append(b);
    r
}

/// `a`, `b` and `c` in sequence.
pub fn cat3(a: &str, b: &str, c: &str) -> (r: String)
    ensures
        r@ == a@ + b@ + c@,
{
    let mut r = String::from_str(a);
    r.append(b);
    r.append(c);
    r
}

/// A copy of an optional string.
pub fn clone_opt(o: &Option<String>) -> (r: Option<String>)
    ensures
        opt_view(r) == opt_view(*o),
{
    match o {
        Some(s) => Some(own(s.as_str())),
        None => None,
    }
}

/// A copy of a list of strings.
pub fn clone_strs(v: &Vec<String>) -> (r: Vec<String>)
    ensures
        strs_view(r@) == strs_view(v@),
{
    let mut r: Vec<String> = Vec::new();
    let mut i: usize = 0;
    while i < v.len()
        invariant
            i <= v@.len(),
            strs_view(r@) == strs_view(v@.take(i as int)),
        decreases v@.len() - i,
    {
        let ghost old_r = r@;
        let x = own(v[i].as_str());
        assert(x@ == v@[i as int]@);
        r.push(x);
        assert(strs_view(r@) =~= strs_view(old_r).push(v@[i as int]@));
        assert(v@.take(i + 1) =~= v@.take(i as int).push(v@[i as int]));
        assert(strs_view(v@.take(i + 1)) =~= strs_view(v@.take(i as int)).push(v@[i as int]@));
        i = i + 1;
    }
    assert(v@.take(v@.len() as int) =~= v@);
    r
}

/// `a` and `b` hold the same note.
pub open spec fn same_note(a: WorkspaceNoteDocument, b: WorkspaceNoteDocument) -> bool {
    &&& a.note_id@ == b.note_id@
    &&& a.workspace_id@ == b.workspace_id@
    &&& opt_view(a.project_id) == opt_view(b.project_id)
    &&& a.slug@ == b.slug@
    &&& a.title@ == b.title@
    &&& a.body_markdown@ == b.body_markdown@
    &&& opt_view(a.summary) == opt_view(b.summary)
    &&& strs_view(a.tags@) == strs_view(b.tags@)
    &&& strs_view(a.entity_hints@) == strs_view(b.entity_hints@)
    &&& a.source@ == b.source@
    &&& a.created_at == b.created_at
    &&& a.updated_at == b.updated_at
    &&& a.archived_at == b.archived_at
    &&& a.graph_status@ == b.graph_status@
    &&& opt_view(a.markdown_path) == opt_view(b.markdown_path)
    &&& opt_view(a.git_revision) == opt_view(b.git_revision)
}

impl WorkspaceNoteDocument {
    /// A copy of this note.
    pub fn copy(&self) -> (r: WorkspaceNoteDocument)
        ensures
            same_note(r, *self),
    {
        WorkspaceNoteDocument {
            note_id: own(self.note_id.as_str()),
            workspace_id: own(self.workspace_id.as_str()),
            project_id: clone_opt(&self.project_id),
            slug: own(self.slug.as_str()),
            title: own(self.title.as_str()),
            body_markdown: own(self.body_markdown.as_str()),
            summary: clone_opt(&self.summary),
            tags: clone_strs(&self.tags),
            entity_hints: clone_strs(&self.entity_hints),
            source: own(self.source.as_str()),
            created_at: self.created_at,
            updated_at: self.updated_at,
            archived_at: self.archived_at,
            graph_status: own(self.graph_status.as_str()),
            markdown_path: clone_opt(&self.markdown_path),
            git_revision: clone_opt(&self.git_revision),
        }
    }
}

/// `a` and `b` hold the same board object.
pub open spec fn same_object(a: WorkspaceBoardObject, b: WorkspaceBoardObject) -> bool {
    &&& a.object_id@ == b.object_id@
    &&& a.board_id@ == b.board_id@
    &&& a.workspace_id@ == b.workspace_id@
    &&& opt_view(a.project_id) == opt_view(b.project_id)
    &&& a.object_type@ == b.object_type@
    &&& opt_view(a.title) == opt_view(b.title)
    &&& opt_view(a.summary) == opt_view(b.summary)
    &&& opt_view(a.note_id) == opt_view(b.note_id)
    &&& opt_view(a.asset_id) == opt_view(b.asset_id)
    &&& opt_view(a.artifact_id) == opt_view(b.artifact_id)
    &&& opt_view(a.graph_entity_name) == opt_view(b.graph_entity_name)
    &&& opt_view(a.graph_source_id) == opt_view(b.graph_source_id)
    &&& strs_view(a.tags@) == strs_view(b.tags@)
    &&& a.ingest_eligible == b.ingest_eligible
    &&& a.locked == b.locked
    &&& a.created_at == b.created_at
    &&& a.updated_at == b.updated_at
}

/// `a` and `b` hold the same connector.
pub open spec fn same_connector(a: WorkspaceConnector, b: WorkspaceConnector) -> bool {
    &&& a.connector_id@ == b.connector_id@
    &&& a.board_id@ == b.board_id@
    &&& a.workspace_id@ == b.workspace_id@
    &&& opt_view(a.project_id) == opt_view(b.project_id)
    &&& a.from_object_id@ == b.from_object_id@
    &&& a.to_object_id@ == b.to_object_id@
    &&& a.connector_type@ == b.connector_type@
    &&& a.relation_intent@ == b.relation_intent@
    &&& opt_view(a.custom_label) == opt_view(b.custom_label)
    &&& opt_view(a.user_authored_summary) == opt_view(b.user_authored_summary)
    &&& a.ingest_eligible == b.ingest_eligible
    &&& a.created_at == b.created_at
    &&& a.updated_at == b.updated_at
}

/// `a` and `b` hold the same board.
pub open spec fn same_board(a: WorkspaceBoard, b: WorkspaceBoard) -> bool {
    &&& a.board_id@ == b.board_id@
    &&& a.workspace_id@ == b.workspace_id@
    &&& opt_view(a.project_id) == opt_view(b.project_id)
    &&& a.title@ == b.title@
    &&& opt_view(a.description) == opt_view(b.description)
    &&& strs_view(a.tags@) == strs_view(b.tags@)
    &&& a.board_type@ == b.board_type@
    &&& a.board_state@ == b.board_state@
    &&& a.tldraw_document == b.tldraw_document
    &&& a.objects@.len() == b.objects@.len()
    &&& forall|i: int| 0 <= i < a.objects@.len() ==> same_object(#[trigger] a.objects@[i], b.objects@[i])
    &&& a.connectors@.len() == b.connectors@.len()
    &&& forall|i: int| 0 <= i < a.connectors@.len() ==> same_connector(#[trigger] a.connectors@[i], b.connectors@[i])
    &&& a.object_count == b.object_count
    &&& a.connector_count == b.connector_count
    &&& a.created_at == b.created_at
    &&& a.updated_at == b.updated_at
    &&& a.ingested_at == b.ingested_at
    &&& a.graph_status@ == b.graph_status@
}

/// `serde_json::Value::clone`: a deep copy, equal to the value copied.
#[verifier::external_body]
fn clone_json(v: &serde_json::Value) -> (r: serde_json::Value)
    ensures
        r == *v,
{
    v.clone()
}

impl WorkspaceBoardObject {
    /// A copy of this object.
    pub fn copy(&self) -> (r: WorkspaceBoardObject)
        ensures
            same_object(r, *self),
    {
        WorkspaceBoardObject {
            object_id: own(self.object_id.as_str()),
            board_id: own(self.board_id.as_str()),
            workspace_id: own(self.workspace_id.as_str()),
            project_id: clone_opt(&self.project_id),
            object_type: own(self.object_type.as_str()),
            title: clone_opt(&self.title),
            summary: clone_opt(&self.summary),
            note_id: clone_opt(&self.note_id),
            asset_id: clone_opt(&self.asset_id),
            artifact_id: clone_opt(&self.artifact_id),
            graph_entity_name: clone_opt(&self.graph_entity_name),
            graph_source_id: clone_opt(&self.graph_source_id),
            tags: clone_strs(&self.tags),
            ingest_eligible: self.ingest_eligible,
            locked: self.locked,
            created_at: self.created_at,
            updated_at: self.updated_at,
        }
    }
}

impl WorkspaceConnector {
    /// A copy of this connector.
    pub fn copy(&self) -> (r: WorkspaceConnector)
        ensures
            same_connector(r, *self),
    {
        WorkspaceConnector {
            connector_id: own(self.connector_id.as_str()),
            board_id: own(self.board_id.as_str()),
            workspace_id: own(self.workspace_id.as_str()),
            project_id: clone_opt(&self.project_id),
            from_object_id: own(self.from_object_id.as_str()),
            to_object_id: own(self.to_object_id.as_str()),
            connector_type: own(self.connector_type.as_str()),
            relation_intent: own(self.relation_intent.as_str()),
            custom_label: clone_opt(&self.custom_label),
            user_authored_summary: clone_opt(&self.user_authored_summary),
            ingest_eligible: self.ingest_eligible,
            created_at: self.created_at,
            updated_at: self.updated_at,
        }
    }
}

impl WorkspaceBoard {
    /// A copy of this board.
    pub fn copy(&self) -> (r: WorkspaceBoard)
        ensures
            same_board(r, *self),
    {
        let mut objects: Vec<WorkspaceBoardObject> = Vec::new();
        let mut i: usize = 0;
        while i < self.objects.len()
            invariant
                i <= self.objects@.len(),
                objects@.len() == i,
                forall|k: int| 0 <= k < i ==> same_object(#[trigger] objects@[k], self.objects@[k]),
            decreases self.objects@.len() - i,
        {
            objects.push(self.objects[i].copy());
            i = i + 1;
        }
        let mut connectors: Vec<WorkspaceConnector> = Vec::new();
        let mut j: usize = 0;
        while j < self.connectors.len()
            invariant
                j <= self.connectors@.len(),
                connectors@.len() == j,
                forall|k: int| 0 <= k < j ==> same_connector(#[trigger] connectors@[k], self.connectors@[k]),
            decreases self.connectors@.len() - j,
        {
            connectors.push(self.connectors[j].copy());
            j = j + 1;
        }
        WorkspaceBoard {
            board_id: own(self.board_id.as_str()),
            workspace_id: own(self.workspace_id.as_str()),
            project_id: clone_opt(&self.project_id),
            title: own(self.title.as_str()),
            description: clone_opt(&self.description),
            tags: clone_strs(&self.tags),
            board_type: own(self.board_type.as_str()),
            board_state: own(self.board_state.as_str()),
            tldraw_document: clone_json(&self.tldraw_document),
            objects,
            connectors,
            object_count: self.object_count,
            connector_count: self.connector_count,
            created_at: self.created_at,
            updated_at: self.updated_at,
            ingested_at: self.ingested_at,
            graph_status: own(self.graph_status.as_str()),
        }
    }
}

/// A metadata entry.
pub fn meta(key: &str, value: Option<String>) -> (m: MetaEntry)
    ensures
        meta_view(m) == (key@, mopt(opt_view(value))),
{
    let v = match value {
        Some(s) => MetaValue::Text(s),
        None => MetaValue::Null,
    };
    MetaEntry { key: own(key), value: v }
}

/// A metadata entry holding a list of strings.
pub fn meta_list(key: &str, items: Vec<String>) -> (m: MetaEntry)
    ensures
        meta_view(m) == (key@, MetaJson::List(strs_view(items@))),
{
    MetaEntry { key: own(key), value: MetaValue::List(items) }
}


impl MetaEntry {
    /// A copy of this entry.
    pub fn clone_entry(&self) -> (r: MetaEntry)
        ensures
            meta_view(r) == meta_view(*self),
    {
        let v = match &self.value {
            MetaValue::Null => MetaValue::Null,
            MetaValue::Text(s) => MetaValue::Text(own(s.as_str())),
            MetaValue::List(l) => MetaValue::List(clone_strs(l)),
        };
        MetaEntry { key: own(self.key.as_str()), value: v }
    }
}

/// A copy of metadata.
pub fn clone_metas(v: &Vec<MetaEntry>) -> (r: Vec<MetaEntry>)
    ensures
        metas_view(r@) == metas_view(v@),
{
    let mut r: Vec<MetaEntry> = Vec::new();
    let mut i: usize = 0;
    while i < v.len()
        invariant
            i <= v@.len(),
            metas_view(r@) == metas_view(v@.take(i as int)),
        decreases v@.len() - i,
    {
        let ghost before = metas_view(r@);
        r.push(v[i].clone_entry());
        assert(metas_view(r@) =~= before.push(meta_view(v@[i as int])));
        assert(v@.take(i + 1) =~= v@.take(i as int).push(v@[i as int]));
        assert(metas_view(v@.take(i + 1)) =~= metas_view(v@.take(i as int)).push(
            meta_view(v@[i as int]),
        ));
        i = i + 1;
    }
    assert(v@.take(v@.len() as int) =~= v@);
    r
}

impl WorkspaceGraphNode {
    /// A copy of this node.
    pub fn clone_node(&self) -> (r: WorkspaceGraphNode)
        ensures
            r@ == self@,
    {
        WorkspaceGraphNode {
            node_id: own(self.node_id.as_str()),
            node_type: own(self.node_type.as_str()),
            title: own(self.title.as_str()),
            subtitle: clone_opt(&self.subtitle),
            metadata: clone_metas(&self.metadata),
        }
    }
}

impl WorkspaceGraphEdge {
    /// A copy of this edge.
    pub fn clone_edge(&self) -> (r: WorkspaceGraphEdge)
        ensures
            r@ == self@,
    {
        WorkspaceGraphEdge {
            edge_id: own(self.edge_id.as_str()),
            from_node_id: own(self.from_node_id.as_str()),
            to_node_id: own(self.to_node_id.as_str()),
            relation_type: own(self.relation_type.as_str()),
            label: clone_opt(&self.label),
            metadata: clone_metas(&self.metadata),
        }
    }
}

} // verus!
