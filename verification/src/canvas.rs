//! The canvas: its tools, its cards and connectors, and the board objects and connectors
//! a canvas document is persisted as. Card geometry stays with the renderer; a card here
//! holds what persistence reads.
use vstd::prelude::*;

use crate::model::{
    clone_opt, clone_strs, opt_view, own, strs_view, WorkspaceBoardObject, WorkspaceConnector,
};
use crate::observability::now_millis;

verus! {

/// Active tool of the canvas toolbar.
#[derive(Debug, Clone, Copy, PartialEq, Eq, Structural)]
pub enum CanvasTool {
    /// Select and drag cards.
    Select,
    /// Pan the viewport.
    Pan,
    /// Drag from one card to another to connect them.
    Connect,
    /// Click empty space to create a note card.
    Note,
    /// Click empty space to place a text card.
    Text,
    /// Shape tools, handled by the drawing bridge.
    Rectangle,
    Circle,
    Diamond,
    Arrow,
}

impl Default for CanvasTool {
    fn default() -> (r: CanvasTool)
        ensures
            r == CanvasTool::Select,
    {
        CanvasTool::Select
    }
}

impl CanvasTool {
    /// The toolbar label.
    pub fn label(self) -> (r: &'static str)
        ensures
            r@ == match self {
                CanvasTool::Select => "Select"@,
                CanvasTool::Pan => "Pan"@,
                CanvasTool::Connect => "Connect"@,
                CanvasTool::Note => "Note"@,
                CanvasTool::Text => "Text"@,
                CanvasTool::Rectangle => "Rect"@,
                CanvasTool::Circle => "Circle"@,
                CanvasTool::Diamond => "Diamond"@,
                CanvasTool::Arrow => "Arrow"@,
            },
    {
        match self {
            CanvasTool::Select => "Select",
            CanvasTool::Pan => "Pan",
            CanvasTool::Connect => "Connect",
            CanvasTool::Note => "Note",
            CanvasTool::Text => "Text",
            CanvasTool::Rectangle => "Rect",
            CanvasTool::Circle => "Circle",
            CanvasTool::Diamond => "Diamond",
            CanvasTool::Arrow => "Arrow",
        }
    }

    /// The glyph of the floating toolbar.
    pub fn icon(self) -> (r: &'static str)
        ensures
            r@ == match self {
                CanvasTool::Select => "⬚"@,
                CanvasTool::Pan => "✥"@,
                CanvasTool::Connect => "↗"@,
                CanvasTool::Note => "▤"@,
                CanvasTool::Text => "T"@,
                CanvasTool::Rectangle => "▭"@,
                CanvasTool::Circle => "○"@,
                CanvasTool::Diamond => "◇"@,
                CanvasTool::Arrow => "➤"@,
            },
    {
        match self {
            CanvasTool::Select => "⬚",
            CanvasTool::Pan => "✥",
            CanvasTool::Connect => "↗",
            CanvasTool::Note => "▤",
            CanvasTool::Text => "T",
            CanvasTool::Rectangle => "▭",
            CanvasTool::Circle => "○",
            CanvasTool::Diamond => "◇",
            CanvasTool::Arrow => "➤",
        }
    }

    /// Whether the tool is a shape placeholder (rectangle, circle, diamond, arrow).
    pub fn is_shape_placeholder(self) -> (r: bool)
        ensures
            r == (self == CanvasTool::Rectangle || self == CanvasTool::Circle || self
                == CanvasTool::Diamond || self == CanvasTool::Arrow),
    {
        match self {
            CanvasTool::Rectangle | CanvasTool::Circle | CanvasTool::Diamond | CanvasTool::Arrow => true,
            _ => false,
        }
    }
}

/// What a canvas card shows.
#[derive(Debug, Clone, Copy, PartialEq, Eq, Structural)]
pub enum CanvasObjectKind {
    NoteCard,
    TextCard,
    GraphReference,
}

/// The object type a card kind is persisted as.
pub open spec fn kind_name(kind: CanvasObjectKind) -> Seq<char> {
    match kind {
        CanvasObjectKind::NoteCard => "note_card"@,
        CanvasObjectKind::TextCard => "text_card"@,
        CanvasObjectKind::GraphReference => "graph_reference"@,
    }
}

/// The object type a card kind is persisted as.
pub fn canvas_object_kind_str(kind: &CanvasObjectKind) -> (r: &'static str)
    ensures
        r@ == kind_name(*kind),
{
    match kind {
        CanvasObjectKind::NoteCard => "note_card",
        CanvasObjectKind::TextCard => "text_card",
        CanvasObjectKind::GraphReference => "graph_reference",
    }
}

/// A card of a canvas document, without its geometry.
#[derive(Debug, Clone)]
pub struct CanvasCard {
    pub id: String,
    pub kind: CanvasObjectKind,
    pub note_id: Option<String>,
    pub title: String,
    pub summary: String,
    pub markdown_preview: String,
    pub tags: Vec<String>,
    pub locked: bool,
}

/// A connector between two cards of a canvas document.
#[derive(Debug, Clone)]
pub struct CanvasConnector {
    pub id: String,
    pub from_object_id: String,
    pub to_object_id: String,
    pub relation_intent: String,
    pub label: String,
}

/// Board objects and connectors derived from a canvas document.
#[derive(Debug)]
pub struct CanvasArtifacts {
    pub objects: Vec<WorkspaceBoardObject>,
    pub connectors: Vec<WorkspaceConnector>,
}

/// The summary a card is persisted with: its summary, else its preview, else none.
pub open spec fn card_summary(c: CanvasCard) -> Option<Seq<char>> {
    if c.summary@.len() != 0 {
        Some(c.summary@)
    } else if c.markdown_preview@.len() != 0 {
        Some(c.markdown_preview@)
    } else {
        None
    }
}

/// The board object a card is persisted as.
pub open spec fn is_card_object(
    o: WorkspaceBoardObject,
    c: CanvasCard,
    board_id: Seq<char>,
    workspace_id: Seq<char>,
    project_id: Option<Seq<char>>,
    now: i64,
) -> bool {
    &&& o.object_id@ == c.id@
    &&& o.board_id@ == board_id
    &&& o.workspace_id@ == workspace_id
    &&& opt_view(o.project_id) == project_id
    &&& o.object_type@ == kind_name(c.kind)
    &&& opt_view(o.title) == Some(c.title@)
    &&& opt_view(o.summary) == card_summary(c)
    &&& opt_view(o.note_id) == opt_view(c.note_id)
    &&& o.asset_id is None
    &&& o.artifact_id is None
    &&& o.graph_entity_name is None
    &&& o.graph_source_id is None
    &&& strs_view(o.tags@) == strs_view(c.tags@)
    &&& o.ingest_eligible
    &&& o.locked == c.locked
    &&& o.created_at == now
    &&& o.updated_at == now
}

/// Whether both ends of a connector are cards of the document.
pub open spec fn connects_cards(k: CanvasConnector, cards: Seq<CanvasCard>) -> bool {
    &&& exists|i: int| 0 <= i < cards.len() && #[trigger] cards[i].id@ == k.from_object_id@
    &&& exists|j: int| 0 <= j < cards.len() && #[trigger] cards[j].id@ == k.to_object_id@
}

/// The board connector a canvas connector is persisted as: directed, its relation
/// (`linked` when empty), its label when not empty.
pub open spec fn is_card_connector(
    w: WorkspaceConnector,
    k: CanvasConnector,
    board_id: Seq<char>,
    workspace_id: Seq<char>,
    project_id: Option<Seq<char>>,
    now: i64,
) -> bool {
    &&& w.connector_id@ == k.id@
    &&& w.board_id@ == board_id
    &&& w.workspace_id@ == workspace_id
    &&& opt_view(w.project_id) == project_id
    &&& w.from_object_id@ == k.from_object_id@
    &&& w.to_object_id@ == k.to_object_id@
    &&& w.connector_type@ == "directed"@
    &&& w.relation_intent@ == (if k.relation_intent@.len() == 0 {
        "linked"@
    } else {
        k.relation_intent@
    })
    &&& opt_view(w.custom_label) == (if k.label@.len() == 0 {
        None
    } else {
        Some(k.label@)
    })
    &&& w.user_authored_summary is None
    &&& w.ingest_eligible
    &&& w.created_at == now
    &&& w.updated_at == now
}

/// The connectors, in order, whose two ends are cards of the document.
pub open spec fn kept_connectors(ks: Seq<CanvasConnector>, cards: Seq<CanvasCard>) -> Seq<CanvasConnector>
    decreases ks.len(),
{
    if ks.len() == 0 {
        Seq::empty()
    } else {
        let r = kept_connectors(ks.drop_last(), cards);
        if connects_cards(ks.last(), cards) {
            r.push(ks.last())
        } else {
            r
        }
    }
}

fn has_card(cards: &Vec<CanvasCard>, id: &str) -> (r: bool)
    ensures
        r == exists|i: int| 0 <= i < cards@.len() && #[trigger] cards@[i].id@ == id@,
{
    let mut i: usize = 0;
    while i < cards.len()
        invariant
            i <= cards@.len(),
            forall|k: int| 0 <= k < i ==> #[trigger] cards@[k].id@ != id@,
        decreases cards@.len() - i,
    {
        if crate::text::str_eq(cards[i].id.as_str(), id) {
            return true;
        }
        i = i + 1;
    }
    false
}

fn card_object(
    c: &CanvasCard,
    board_id: &str,
    workspace_id: &str,
    project_id: Option<&str>,
    now: i64,
) -> (o: WorkspaceBoardObject)
    ensures
        is_card_object(o, *c, board_id@, workspace_id@, opt_str(project_id), now),
{
    let summary = if c.summary.as_str().unicode_len() != 0 {
        Some(own(c.summary.as_str()))
    } else if c.markdown_preview.as_str().unicode_len() != 0 {
        Some(own(c.markdown_preview.as_str()))
    } else {
        None
    };
    WorkspaceBoardObject {
        object_id: own(c.id.as_str()),
        board_id: own(board_id),
        workspace_id: own(workspace_id),
        project_id: match project_id {
            Some(p) => Some(own(p)),
            None => None,
        },
        object_type: own(canvas_object_kind_str(&c.kind)),
        title: Some(own(c.title.as_str())),
        summary,
        note_id: clone_opt(&c.note_id),
        asset_id: None,
        artifact_id: None,
        graph_entity_name: None,
        graph_source_id: None,
        tags: clone_strs(&c.tags),
        ingest_eligible: true,
        locked: c.locked,
        created_at: now,
        updated_at: now,
    }
}

fn card_connector(
    k: &CanvasConnector,
    board_id: &str,
    workspace_id: &str,
    project_id: Option<&str>,
    now: i64,
) -> (w: WorkspaceConnector)
    ensures
        is_card_connector(w, *k, board_id@, workspace_id@, opt_str(project_id), now),
{
    WorkspaceConnector {
        connector_id: own(k.id.as_str()),
        board_id: own(board_id),
        workspace_id: own(workspace_id),
        project_id: match project_id {
            Some(p) => Some(own(p)),
            None => None,
        },
        from_object_id: own(k.from_object_id.as_str()),
        to_object_id: own(k.to_object_id.as_str()),
        connector_type: own("directed"),
        relation_intent: if k.relation_intent.as_str().unicode_len() == 0 {
            own("linked")
        } else {
            own(k.relation_intent.as_str())
        },
        custom_label: if k.label.as_str().unicode_len() == 0 {
            None
        } else {
            Some(own(k.label.as_str()))
        },
        user_authored_summary: None,
        ingest_eligible: true,
        created_at: now,
        updated_at: now,
    }
}

/// Mathematical value of an optional `&str`.
pub open spec fn opt_str(o: Option<&str>) -> Option<Seq<char>> {
    match o {
        Some(s) => Some(s@),
        None => None,
    }
}

/// Projects the cards and connectors of a canvas document onto board objects and
/// connectors stamped with `now`: one object per card, in order, and one connector per
/// canvas connector whose two ends are cards of the document, in order.
pub fn derive_artifacts_at(
    cards: &Vec<CanvasCard>,
    connectors: &Vec<CanvasConnector>,
    board_id: &str,
    workspace_id: &str,
    project_id: Option<&str>,
    now: i64,
) -> (r: CanvasArtifacts)
    ensures
        is_artifacts(r, cards@, connectors@, board_id@, workspace_id@, opt_str(project_id), now),
{
    let mut objects: Vec<WorkspaceBoardObject> = Vec::new();
    let mut i: usize = 0;
    while i < cards.len()
        invariant
            i <= cards@.len(),
            objects@.len() == i,
            forall|k: int|
                0 <= k < i ==> is_card_object(
                    #[trigger] objects@[k],
                    cards@[k],
                    board_id@,
                    workspace_id@,
                    opt_str(project_id),
                    now,
                ),
        decreases cards@.len() - i,
    {
        objects.push(card_object(&cards[i], board_id, workspace_id, project_id, now));
        i = i + 1;
    }
    let mut out: Vec<WorkspaceConnector> = Vec::new();
    let mut j: usize = 0;
    while j < connectors.len()
        invariant
            j <= connectors@.len(),
            out@.len() == kept_connectors(connectors@.take(j as int), cards@).len(),
            forall|k: int|
                0 <= k < out@.len() ==> is_card_connector(
                    #[trigger] out@[k],
                    kept_connectors(connectors@.take(j as int), cards@)[k],
                    board_id@,
                    workspace_id@,
                    opt_str(project_id),
                    now,
                ),
        decreases connectors@.len() - j,
    {
        let k = &connectors[j];
        assert(connectors@.take(j + 1).drop_last() =~= connectors@.take(j as int));
        assert(connectors@.take(j + 1).last() == connectors@[j as int]);
        if has_card(cards, k.from_object_id.as_str()) && has_card(cards, k.to_object_id.as_str()) {
            out.push(card_connector(k, board_id, workspace_id, project_id, now));
        }
        j = j + 1;
    }
    assert(connectors@.take(connectors@.len() as int) =~= connectors@);
    CanvasArtifacts { objects, connectors: out }
}

/// The artifacts of a canvas document stamped with `now`: one object per card, in
/// order, and one connector per canvas connector whose two ends are cards, in order.
pub open spec fn is_artifacts(
    r: CanvasArtifacts,
    cards: Seq<CanvasCard>,
    connectors: Seq<CanvasConnector>,
    board_id: Seq<char>,
    workspace_id: Seq<char>,
    project_id: Option<Seq<char>>,
    now: i64,
) -> bool {
    &&& r.objects@.len() == cards.len()
    &&& forall|i: int|
        0 <= i < cards.len() ==> is_card_object(
            #[trigger] r.objects@[i],
            cards[i],
            board_id,
            workspace_id,
            project_id,
            now,
        )
    &&& r.connectors@.len() == kept_connectors(connectors, cards).len()
    &&& forall|i: int|
        0 <= i < r.connectors@.len() ==> is_card_connector(
            #[trigger] r.connectors@[i],
            kept_connectors(connectors, cards)[i],
            board_id,
            workspace_id,
            project_id,
            now,
        )
}

/// [`derive_artifacts_at`] at the current time.
pub fn derive_workspace_artifacts_from_canvas_document(
    cards: &Vec<CanvasCard>,
    connectors: &Vec<CanvasConnector>,
    board_id: &str,
    workspace_id: &str,
    project_id: Option<&str>,
) -> (r: CanvasArtifacts)
    ensures
        exists|now: i64|
            #[trigger] is_artifacts(
                r,
                cards@,
                connectors@,
                board_id@,
                workspace_id@,
                opt_str(project_id),
                now,
            ),
{
    let now = now_millis();
    let r = derive_artifacts_at(cards, connectors, board_id, workspace_id, project_id, now);
    assert(is_artifacts(r, cards@, connectors@, board_id@, workspace_id@, opt_str(project_id), now));
    r
}

} // verus!
