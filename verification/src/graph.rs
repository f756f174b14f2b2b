//! Graph payload construction: the local board / note neighbourhoods built from the
//! workspace store, graph nodes and edges for query rows, and duplicate-free merging.
use vstd::prelude::*;

use crate::model::{
    cat, cat3, clone_opt, meta, metas_view, nodes_view, edges_view, opt_view, own, strs_view, EdgeView,
    MetaEntry, MetaJson, mtext, mopt, NodeView, WorkspaceBoard, WorkspaceBoardObject, WorkspaceConnector,
    WorkspaceGraphEdge, WorkspaceGraphNode,
};

verus! {

pub open spec fn local_meta() -> Seq<(Seq<char>, MetaJson)> {
    seq![("source"@, mtext("local"@))]
}

pub open spec fn ladybug_meta() -> Seq<(Seq<char>, MetaJson)> {
    seq![("source"@, mtext("ladybug"@))]
}

pub open spec fn board_node_id(board_id: Seq<char>) -> Seq<char> {
    "board:"@ + board_id
}

pub open spec fn object_node_id(object_id: Seq<char>) -> Seq<char> {
    "object:"@ + object_id
}

pub open spec fn note_node_id(note_id: Seq<char>) -> Seq<char> {
    "note:"@ + note_id
}

/// The seed node of a board's neighbourhood.
pub open spec fn board_node(board_id: Seq<char>, title: Seq<char>) -> NodeView {
    NodeView {
        node_id: board_node_id(board_id),
        node_type: "board"@,
        title: title,
        subtitle: None,
        metadata: seq![("source"@, mtext("local"@)), ("board_id"@, mtext(board_id))],
    }
}

/// The title shown for an object: its own title, else `fallback`.
pub open spec fn title_or(title: Option<String>, fallback: Seq<char>) -> Seq<char> {
    match title {
        Some(t) => t@,
        None => fallback,
    }
}

/// The node of a board object in a board neighbourhood.
pub open spec fn object_node(o: WorkspaceBoardObject) -> NodeView {
    NodeView {
        node_id: object_node_id(o.object_id@),
        node_type: o.object_type@,
        title: title_or(o.title, o.object_id@),
        subtitle: opt_view(o.summary),
        metadata: seq![
            ("source"@, mtext("local"@)),
            ("object_type"@, mtext(o.object_type@)),
            ("note_id"@, mopt(opt_view(o.note_id))),
        ],
    }
}

/// A note node.
pub open spec fn note_node(note_id: Seq<char>, title: Seq<char>) -> NodeView {
    NodeView {
        node_id: note_node_id(note_id),
        node_type: "note"@,
        title: title,
        subtitle: None,
        metadata: seq![("source"@, mtext("local"@)), ("note_id"@, mtext(note_id))],
    }
}

/// Whether some node of `ns` has the id `id`.
pub open spec fn has_node(ns: Seq<NodeView>, id: Seq<char>) -> bool {
    exists|j: int| 0 <= j < ns.len() && ns[j].node_id == id
}

/// Whether some edge of `es` has the id `id`.
pub open spec fn has_edge(es: Seq<EdgeView>, id: Seq<char>) -> bool {
    exists|j: int| 0 <= j < es.len() && es[j].edge_id == id
}

/// `ns` with `n` appended unless a node with its id is already there.
pub open spec fn add_node(ns: Seq<NodeView>, n: NodeView) -> Seq<NodeView> {
    if has_node(ns, n.node_id) {
        ns
    } else {
        ns.push(n)
    }
}

/// `es` with `e` appended unless an edge with its id is already there.
pub open spec fn add_edge(es: Seq<EdgeView>, e: EdgeView) -> Seq<EdgeView> {
    if has_edge(es, e.edge_id) {
        es
    } else {
        es.push(e)
    }
}

/// Nodes of a board neighbourhood after the objects `objs`: each object's node, then its
/// note's node unless that note was already added.
pub open spec fn board_object_nodes(acc: Seq<NodeView>, objs: Seq<WorkspaceBoardObject>) -> Seq<
    NodeView,
>
    decreases objs.len(),
{
    if objs.len() == 0 {
        acc
    } else {
        let o = objs[0];
        let acc1 = acc.push(object_node(o));
        let acc2 = match o.note_id {
            Some(n) => add_node(acc1, note_node(n@, title_or(o.title, n@))),
            None => acc1,
        };
        board_object_nodes(acc2, objs.drop_first())
    }
}

/// An edge with local metadata.
pub open spec fn local_edge(from: Seq<char>, rel: Seq<char>, to: Seq<char>) -> EdgeView {
    EdgeView {
        edge_id: from + "--"@ + rel + "--"@ + to,
        from_node_id: from,
        to_node_id: to,
        relation_type: rel,
        label: None,
        metadata: local_meta(),
    }
}

/// Edges contributed by one object of a board.
pub open spec fn object_edges(board_id: Seq<char>, o: WorkspaceBoardObject) -> Seq<EdgeView> {
    let has = local_edge(board_node_id(board_id), "BOARD_HAS_OBJECT"@, object_node_id(o.object_id@));
    match o.note_id {
        Some(n) => seq![
            has,
            local_edge(object_node_id(o.object_id@), "OBJECT_REFERENCES_NOTE"@, note_node_id(n@)),
        ],
        None => seq![has],
    }
}

/// Edges of all objects of a board, in order.
pub open spec fn objects_edges(board_id: Seq<char>, objs: Seq<WorkspaceBoardObject>) -> Seq<EdgeView>
    decreases objs.len(),
{
    if objs.len() == 0 {
        Seq::<EdgeView>::empty()
    } else {
        objects_edges(board_id, objs.drop_last()) + object_edges(board_id, objs.last())
    }
}

/// The user-drawn edge of a connector.
pub open spec fn connector_edge(c: WorkspaceConnector) -> EdgeView {
    let from = object_node_id(c.from_object_id@);
    let to = object_node_id(c.to_object_id@);
    EdgeView {
        edge_id: from + "--USER_LINKED--"@ + to,
        from_node_id: from,
        to_node_id: to,
        relation_type: "USER_LINKED"@,
        label: opt_view(c.custom_label),
        metadata: seq![("source"@, mtext("local"@)), ("relation_intent"@, mtext(c.relation_intent@))],
    }
}

pub open spec fn connectors_edges(cs: Seq<WorkspaceConnector>) -> Seq<EdgeView>
    decreases cs.len(),
{
    if cs.len() == 0 {
        Seq::<EdgeView>::empty()
    } else {
        connectors_edges(cs.drop_last()).push(connector_edge(cs.last()))
    }
}

/// Whether a node with id `id` is in `nodes`.
pub fn has_node_exec(nodes: &Vec<WorkspaceGraphNode>, id: &String) -> (r: bool)
    ensures
        r == has_node(nodes_view(nodes@), id@),
{
    let mut i: usize = 0;
    while i < nodes.len()
        invariant
            i <= nodes@.len(),
            forall|j: int| 0 <= j < i ==> nodes@[j].node_id@ != id@,
        decreases nodes@.len() - i,
    {
        if nodes[i].node_id == *id {
            assert(nodes_view(nodes@)[i as int].node_id == id@);
            return true;
        }
        i = i + 1;
    }
    assert forall|j: int| 0 <= j < nodes_view(nodes@).len() implies nodes_view(
        nodes@,
    )[j].node_id != id@ by {
        assert(nodes_view(nodes@)[j] == nodes@[j]@);
    }
    false
}

/// Whether an edge with id `id` is in `edges`.
pub fn has_edge_exec(edges: &Vec<WorkspaceGraphEdge>, id: &String) -> (r: bool)
    ensures
        r == has_edge(edges_view(edges@), id@),
{
    let mut i: usize = 0;
    while i < edges.len()
        invariant
            i <= edges@.len(),
            forall|j: int| 0 <= j < i ==> edges@[j].edge_id@ != id@,
        decreases edges@.len() - i,
    {
        if edges[i].edge_id == *id {
            assert(edges_view(edges@)[i as int].edge_id == id@);
            return true;
        }
        i = i + 1;
    }
    assert forall|j: int| 0 <= j < edges_view(edges@).len() implies edges_view(
        edges@,
    )[j].edge_id != id@ by {
        assert(edges_view(edges@)[j] == edges@[j]@);
    }
    false
}

/// Appends `n` to `nodes` unless a node with its id is there.
pub fn push_node_unique(nodes: &mut Vec<WorkspaceGraphNode>, n: WorkspaceGraphNode)
    ensures
        nodes_view(final(nodes)@) == add_node(nodes_view(old(nodes)@), n@),
{
    if !has_node_exec(nodes, &n.node_id) {
        let ghost before = nodes_view(nodes@);
        nodes.push(n);
        assert(nodes_view(nodes@) =~= before.push(n@));
    }
}

/// Appends `e` to `edges` unless an edge with its id is there.
pub fn push_edge_unique(edges: &mut Vec<WorkspaceGraphEdge>, e: WorkspaceGraphEdge)
    ensures
        edges_view(final(edges)@) == add_edge(edges_view(old(edges)@), e@),
{
    if !has_edge_exec(edges, &e.edge_id) {
        let ghost before = edges_view(edges@);
        edges.push(e);
        assert(edges_view(edges@) =~= before.push(e@));
    }
}

fn push_node(nodes: &mut Vec<WorkspaceGraphNode>, n: WorkspaceGraphNode)
    ensures
        nodes_view(final(nodes)@) == nodes_view(old(nodes)@).push(n@),
{
    let ghost before = nodes_view(nodes@);
    nodes.push(n);
    assert(nodes_view(nodes@) =~= before.push(n@));
}

fn push_edge(edges: &mut Vec<WorkspaceGraphEdge>, e: WorkspaceGraphEdge)
    ensures
        edges_view(final(edges)@) == edges_view(old(edges)@).push(e@),
{
    let ghost before = edges_view(edges@);
    edges.push(e);
    assert(edges_view(edges@) =~= before.push(e@));
}

fn local_meta_exec() -> (m: Vec<MetaEntry>)
    ensures
        metas_view(m@) == local_meta(),
{
    let m = vec![meta("source", Some(own("local")))];
    assert(metas_view(m@) =~= local_meta());
    m
}

fn local_edge_exec(from: &str, rel: &str, to: &str) -> (e: WorkspaceGraphEdge)
    ensures
        e@ == local_edge(from@, rel@, to@),
{
    let mut id = String::from_str(from);
    id.append("--");
    id.append(rel);
    id.append("--");
    id.append(to);
    WorkspaceGraphEdge {
        edge_id: id,
        from_node_id: own(from),
        to_node_id: own(to),
        relation_type: own(rel),
        label: None,
        metadata: local_meta_exec(),
    }
}

fn board_node_exec(board_id: &str, title: &str) -> (n: WorkspaceGraphNode)
    ensures
        n@ == board_node(board_id@, title@),
{
    let metadata = vec![meta("source", Some(own("local"))), meta("board_id", Some(own(board_id)))];
    assert(metas_view(metadata@) =~= board_node(board_id@, title@).metadata);
    WorkspaceGraphNode {
        node_id: cat("board:", board_id),
        node_type: own("board"),
        title: own(title),
        subtitle: None,
        metadata,
    }
}

fn title_or_exec(title: &Option<String>, fallback: &str) -> (r: String)
    ensures
        r@ == title_or(*title, fallback@),
{
    match title {
        Some(t) => own(t.as_str()),
        None => own(fallback),
    }
}

fn object_node_exec(o: &WorkspaceBoardObject) -> (n: WorkspaceGraphNode)
    ensures
        n@ == object_node(*o),
{
    let metadata = vec![
        meta("source", Some(own("local"))),
        meta("object_type", Some(own(o.object_type.as_str()))),
        meta("note_id", clone_opt(&o.note_id)),
    ];
    assert(metas_view(metadata@) =~= object_node(*o).metadata);
    WorkspaceGraphNode {
        node_id: cat("object:", o.object_id.as_str()),
        node_type: own(o.object_type.as_str()),
        title: title_or_exec(&o.title, o.object_id.as_str()),
        subtitle: clone_opt(&o.summary),
        metadata,
    }
}

fn note_node_exec(note_id: &str, title: String) -> (n: WorkspaceGraphNode)
    ensures
        n@ == note_node(note_id@, title@),
{
    let metadata = vec![meta("source", Some(own("local"))), meta("note_id", Some(own(note_id)))];
    assert(metas_view(metadata@) =~= note_node(note_id@, title@).metadata);
    WorkspaceGraphNode {
        node_id: cat("note:", note_id),
        node_type: own("note"),
        title,
        subtitle: None,
        metadata,
    }
}

fn connector_edge_exec(c: &WorkspaceConnector) -> (e: WorkspaceGraphEdge)
    ensures
        e@ == connector_edge(*c),
{
    let from = cat("object:", c.from_object_id.as_str());
    let to = cat("object:", c.to_object_id.as_str());
    let metadata = vec![
        meta("source", Some(own("local"))),
        meta("relation_intent", Some(own(c.relation_intent.as_str()))),
    ];
    assert(metadata@.len() == 2);
    assert(metas_view(metadata@) =~= connector_edge(*c).metadata);
    WorkspaceGraphEdge {
        edge_id: cat3(from.as_str(), "--USER_LINKED--", to.as_str()),
        from_node_id: from,
        to_node_id: to,
        relation_type: own("USER_LINKED"),
        label: clone_opt(&c.custom_label),
        metadata,
    }
}

/// Local graph of a board: the board node, a node per object, a node per referenced note
/// (once per note), and `BOARD_HAS_OBJECT`, `OBJECT_REFERENCES_NOTE` and `USER_LINKED`
/// edges.
pub fn build_board_local_graph(
    board_id: &str,
    board_title: &str,
    objects: &Vec<WorkspaceBoardObject>,
    connectors: &Vec<WorkspaceConnector>,
) -> (r: (Vec<WorkspaceGraphNode>, Vec<WorkspaceGraphEdge>))
    ensures
        nodes_view(r.0@) == board_object_nodes(seq![board_node(board_id@, board_title@)], objects@),
        edges_view(r.1@) == objects_edges(board_id@, objects@) + connectors_edges(connectors@),
        distinct_object_ids(objects@) ==> distinct_node_ids(nodes_view(r.0@)),
{
    proof {
        lemma_board_graph_nodes_distinct(board_id@, board_title@, objects@);
    }
    let mut nodes: Vec<WorkspaceGraphNode> = Vec::new();
    let mut edges: Vec<WorkspaceGraphEdge> = Vec::new();
    push_node(&mut nodes, board_node_exec(board_id, board_title));
    let board_nid = cat("board:", board_id);
    let ghost init = seq![board_node(board_id@, board_title@)];
    assert(nodes_view(nodes@) =~= init);
    assert(objects@.skip(0) =~= objects@);
    assert(objects@.take(0) =~= Seq::<WorkspaceBoardObject>::empty());
    let mut i: usize = 0;
    while i < objects.len()
        invariant
            i <= objects@.len(),
            board_nid@ == board_node_id(board_id@),
            board_object_nodes(init, objects@) == board_object_nodes(
                nodes_view(nodes@),
                objects@.skip(i as int),
            ),
            edges_view(edges@) == objects_edges(board_id@, objects@.take(i as int)),
        decreases objects@.len() - i,
    {
        let obj = &objects[i];
        let ghost acc0 = nodes_view(nodes@);
        let ghost edges0 = edges_view(edges@);
        assert(objects@.skip(i as int)[0] == *obj);
        assert(objects@.skip(i as int).drop_first() =~= objects@.skip(i + 1));
        assert(objects@.take(i + 1).drop_last() =~= objects@.take(i as int));
        assert(objects@.take(i + 1).last() == *obj);
        let obj_nid = cat("object:", obj.object_id.as_str());
        push_node(&mut nodes, object_node_exec(obj));
        push_edge(
            &mut edges,
            local_edge_exec(board_nid.as_str(), "BOARD_HAS_OBJECT", obj_nid.as_str()),
        );
        match &obj.note_id {
            Some(note_id) => {
                let title = title_or_exec(&obj.title, note_id.as_str());
                push_node_unique(&mut nodes, note_node_exec(note_id.as_str(), title));
                let note_nid = cat("note:", note_id.as_str());
                push_edge(
                    &mut edges,
                    local_edge_exec(obj_nid.as_str(), "OBJECT_REFERENCES_NOTE", note_nid.as_str()),
                );
            },
            None => {},
        }
        assert(edges_view(edges@) =~= edges0 + object_edges(board_id@, *obj));
        i = i + 1;
    }
    assert(objects@.take(objects@.len() as int) =~= objects@);
    assert(objects@.skip(objects@.len() as int) =~= Seq::<WorkspaceBoardObject>::empty());
    let ghost obj_edges = edges_view(edges@);
    assert(connectors@.take(0) =~= Seq::<WorkspaceConnector>::empty());
    let mut j: usize = 0;
    while j < connectors.len()
        invariant
            j <= connectors@.len(),
            edges_view(edges@) == obj_edges + connectors_edges(connectors@.take(j as int)),
        decreases connectors@.len() - j,
    {
        let c = &connectors[j];
        assert(connectors@.take(j + 1).drop_last() =~= connectors@.take(j as int));
        assert(connectors@.take(j + 1).last() == *c);
        push_edge(&mut edges, connector_edge_exec(c));
        j = j + 1;
    }
    assert(connectors@.take(connectors@.len() as int) =~= connectors@);
    (nodes, edges)
}

/// State of a note neighbourhood while walking one board's objects: the nodes, the edges,
/// and whether the board holds the note.
pub open spec fn note_objects_step(
    st: (Seq<NodeView>, Seq<EdgeView>, bool),
    board_nid: Seq<char>,
    note_id: Seq<char>,
    objs: Seq<WorkspaceBoardObject>,
) -> (Seq<NodeView>, Seq<EdgeView>, bool)
    decreases objs.len(),
{
    if objs.len() == 0 {
        st
    } else {
        let o = objs[0];
        let st2 = if opt_view(o.note_id) == Some(note_id) {
            let onid = object_node_id(o.object_id@);
            let n = NodeView {
                node_id: onid,
                node_type: o.object_type@,
                title: title_or(o.title, o.object_id@),
                subtitle: opt_view(o.summary),
                metadata: seq![("source"@, mtext("local"@)), ("object_type"@, mtext(o.object_type@))],
            };
            (
                add_node(st.0, n),
                st.1.push(local_edge(board_nid, "BOARD_HAS_OBJECT"@, onid)).push(
                    local_edge(onid, "OBJECT_REFERENCES_NOTE"@, note_node_id(note_id)),
                ),
                true,
            )
        } else {
            st
        };
        note_objects_step(st2, board_nid, note_id, objs.drop_first())
    }
}

/// The node of a board in a note neighbourhood.
pub open spec fn note_board_node(b: WorkspaceBoard) -> NodeView {
    NodeView {
        node_id: board_node_id(b.board_id@),
        node_type: "board"@,
        title: b.title@,
        subtitle: None,
        metadata: seq![("source"@, mtext("local"@)), ("board_id"@, mtext(b.board_id@))],
    }
}

/// Whether one of the objects references the note `note_id`.
pub open spec fn board_refers(objs: Seq<WorkspaceBoardObject>, note_id: Seq<char>) -> bool {
    exists|k: int| 0 <= k < objs.len() && opt_view(#[trigger] objs[k].note_id) == Some(note_id)
}

/// Walking objects none of which references the note changes nothing.
proof fn lemma_objects_step_unrelated(
    st: (Seq<NodeView>, Seq<EdgeView>, bool),
    board_nid: Seq<char>,
    note_id: Seq<char>,
    objs: Seq<WorkspaceBoardObject>,
)
    requires
        !board_refers(objs, note_id),
    ensures
        note_objects_step(st, board_nid, note_id, objs) == st,
    decreases objs.len(),
{
    if objs.len() > 0 {
        assert(!board_refers(objs.drop_first(), note_id)) by {
            if board_refers(objs.drop_first(), note_id) {
                let k = choose|k: int| 0 <= k < objs.drop_first().len() && opt_view(#[trigger] objs.drop_first()[k].note_id) == Some(note_id);
                assert(objs[k + 1] == objs.drop_first()[k]);
            }
        }
        assert(opt_view(objs[0].note_id) != Some(note_id));
        lemma_objects_step_unrelated(st, board_nid, note_id, objs.drop_first());
    }
}

fn board_refers_exec(board: &WorkspaceBoard, note_id: &str) -> (r: bool)
    ensures
        r == board_refers(board.objects@, note_id@),
{
    let mut k: usize = 0;
    while k < board.objects.len()
        invariant
            k <= board.objects@.len(),
            forall|m: int| 0 <= m < k ==> opt_view(#[trigger] board.objects@[m].note_id) != Some(note_id@),
        decreases board.objects@.len() - k,
    {
        if refers_to(&board.objects[k].note_id, note_id) {
            return true;
        }
        k = k + 1;
    }
    false
}

/// Nodes and edges of a note neighbourhood after the boards `boards`: a board that holds
/// the note adds its node, the objects referencing the note, their edges and a
/// `CONTAINS_NOTE` edge; any other board adds nothing.
pub open spec fn note_boards(
    st: (Seq<NodeView>, Seq<EdgeView>),
    note_id: Seq<char>,
    boards: Seq<WorkspaceBoard>,
) -> (Seq<NodeView>, Seq<EdgeView>)
    decreases boards.len(),
{
    if boards.len() == 0 {
        st
    } else {
        let b = boards[0];
        let bnid = board_node_id(b.board_id@);
        let nodes1 = if board_refers(b.objects@, note_id) {
            add_node(st.0, note_board_node(b))
        } else {
            st.0
        };
        let walked = note_objects_step((nodes1, st.1, false), bnid, note_id, b.objects@);
        let edges2 = if walked.2 {
            walked.1.push(local_edge(bnid, "CONTAINS_NOTE"@, note_node_id(note_id)))
        } else {
            walked.1
        };
        note_boards((walked.0, edges2), note_id, boards.drop_first())
    }
}

fn note_object_node_exec(o: &WorkspaceBoardObject) -> (n: WorkspaceGraphNode)
    ensures
        n@ == (NodeView {
            node_id: object_node_id(o.object_id@),
            node_type: o.object_type@,
            title: title_or(o.title, o.object_id@),
            subtitle: opt_view(o.summary),
            metadata: seq![("source"@, mtext("local"@)), ("object_type"@, mtext(o.object_type@))],
        }),
{
    let metadata = vec![
        meta("source", Some(own("local"))),
        meta("object_type", Some(own(o.object_type.as_str()))),
    ];
    assert(metadata@.len() == 2);
    assert(metas_view(metadata@) =~= seq![
        ("source"@, mtext("local"@)),
        ("object_type"@, mtext(o.object_type@)),
    ]);
    WorkspaceGraphNode {
        node_id: cat("object:", o.object_id.as_str()),
        node_type: own(o.object_type.as_str()),
        title: title_or_exec(&o.title, o.object_id.as_str()),
        subtitle: clone_opt(&o.summary),
        metadata,
    }
}

/// Whether `o` references `note_id`.
fn refers_to(o: &Option<String>, note_id: &str) -> (r: bool)
    ensures
        r == (opt_view(*o) == Some(note_id@)),
{
    match o {
        Some(s) => {
            let t = own(note_id);
            *s == t
        },
        None => false,
    }
}

/// Local graph of a note: the note node, the boards that hold the note (once per board
/// id), the objects that reference the note, and `BOARD_HAS_OBJECT`,
/// `OBJECT_REFERENCES_NOTE` and `CONTAINS_NOTE` edges. Boards without the note are left
/// out.
pub fn build_note_local_graph(note_id: &str, note_title: &str, boards: &Vec<WorkspaceBoard>) -> (r: (
    Vec<WorkspaceGraphNode>,
    Vec<WorkspaceGraphEdge>,
))
    ensures
        (nodes_view(r.0@), edges_view(r.1@)) == note_boards(
            (seq![note_node(note_id@, note_title@)], Seq::<EdgeView>::empty()),
            note_id@,
            boards@,
        ),
{
    let mut nodes: Vec<WorkspaceGraphNode> = Vec::new();
    let mut edges: Vec<WorkspaceGraphEdge> = Vec::new();
    push_node(&mut nodes, note_node_exec(note_id, own(note_title)));
    let note_nid = cat("note:", note_id);
    let ghost init = (seq![note_node(note_id@, note_title@)], Seq::<EdgeView>::empty());
    assert(nodes_view(nodes@) =~= init.0);
    assert(edges_view(edges@) =~= init.1);
    assert(boards@.skip(0) =~= boards@);
    let mut i: usize = 0;
    while i < boards.len()
        invariant
            i <= boards@.len(),
            note_nid@ == note_node_id(note_id@),
            note_boards(init, note_id@, boards@) == note_boards(
                (nodes_view(nodes@), edges_view(edges@)),
                note_id@,
                boards@.skip(i as int),
            ),
        decreases boards@.len() - i,
    {
        let board = &boards[i];
        assert(boards@.skip(i as int)[0] == *board);
        assert(boards@.skip(i as int).drop_first() =~= boards@.skip(i + 1));
        let board_nid = cat("board:", board.board_id.as_str());
        let bnode = WorkspaceGraphNode {
            node_id: own(board_nid.as_str()),
            node_type: own("board"),
            title: own(board.title.as_str()),
            subtitle: None,
            metadata: vec![
                meta("source", Some(own("local"))),
                meta("board_id", Some(own(board.board_id.as_str()))),
            ],
        };
        assert(metas_view(bnode.metadata@) =~= note_board_node(*board).metadata);
        let refers = board_refers_exec(board, note_id);
        if refers {
            push_node_unique(&mut nodes, bnode);
        }
        let mut has_note = false;
        let ghost objs = board.objects@;
        let ghost target = note_objects_step(
            (nodes_view(nodes@), edges_view(edges@), false),
            board_nid@,
            note_id@,
            objs,
        );
        assert(objs.skip(0) =~= objs);
        let mut j: usize = 0;
        while j < board.objects.len()
            invariant
                j <= objs.len(),
                objs == board.objects@,
                board_nid@ == board_node_id(board.board_id@),
                note_nid@ == note_node_id(note_id@),
                target == note_objects_step(
                    (nodes_view(nodes@), edges_view(edges@), has_note),
                    board_nid@,
                    note_id@,
                    objs.skip(j as int),
                ),
            decreases objs.len() - j,
        {
            let obj = &board.objects[j];
            assert(objs.skip(j as int)[0] == *obj);
            assert(objs.skip(j as int).drop_first() =~= objs.skip(j + 1));
            if refers_to(&obj.note_id, note_id) {
                has_note = true;
                let obj_nid = cat("object:", obj.object_id.as_str());
                push_node_unique(&mut nodes, note_object_node_exec(obj));
                push_edge(
                    &mut edges,
                    local_edge_exec(board_nid.as_str(), "BOARD_HAS_OBJECT", obj_nid.as_str()),
                );
                push_edge(
                    &mut edges,
                    local_edge_exec(
                        obj_nid.as_str(),
                        "OBJECT_REFERENCES_NOTE",
                        note_nid.as_str(),
                    ),
                );
            }
            j = j + 1;
        }
        assert(objs.skip(objs.len() as int) =~= Seq::<WorkspaceBoardObject>::empty());
        proof {
            if !refers {
                lemma_objects_step_unrelated(
                    (nodes_view(nodes@), edges_view(edges@), false),
                    board_nid@,
                    note_id@,
                    objs,
                );
            }
        }
        if has_note {
            push_edge(
                &mut edges,
                local_edge_exec(board_nid.as_str(), "CONTAINS_NOTE", note_nid.as_str()),
            );
        }
        i = i + 1;
    }
    assert(boards@.skip(boards@.len() as int) =~= Seq::<WorkspaceBoard>::empty());
    (nodes, edges)
}


/// An edge read from Ladybug.
pub open spec fn ladybug_edge(from: Seq<char>, to: Seq<char>, rel: Seq<char>) -> EdgeView {
    EdgeView {
        edge_id: from + "--"@ + rel + "--"@ + to,
        from_node_id: from,
        to_node_id: to,
        relation_type: rel,
        label: None,
        metadata: ladybug_meta(),
    }
}

/// Builds a graph edge from endpoint ids and a relation type.
pub fn make_edge(from_node_id: &str, to_node_id: &str, rel_type: &str) -> (e: WorkspaceGraphEdge)
    ensures
        e@ == ladybug_edge(from_node_id@, to_node_id@, rel_type@),
{
    let mut id = String::from_str(from_node_id);
    id.append("--");
    id.append(rel_type);
    id.append("--");
    id.append(to_node_id);
    let metadata = vec![meta("source", Some(own("ladybug")))];
    assert(metas_view(metadata@) =~= ladybug_meta());
    WorkspaceGraphEdge {
        edge_id: id,
        from_node_id: own(from_node_id),
        to_node_id: own(to_node_id),
        relation_type: own(rel_type),
        label: None,
        metadata,
    }
}

/// The node of a named memory entity.
pub open spec fn entity_node(name: Seq<char>) -> NodeView {
    NodeView {
        node_id: "ladybug-entity:"@ + name,
        node_type: "MemoryEntity"@,
        title: name,
        subtitle: None,
        metadata: seq![("source"@, mtext("ladybug"@)), ("primary_label"@, mtext("MemoryEntity"@))],
    }
}

/// Builds the node of a memory entity.
pub fn make_entity_node(name: &str) -> (n: WorkspaceGraphNode)
    ensures
        n@ == entity_node(name@),
{
    let metadata = vec![
        meta("source", Some(own("ladybug"))),
        meta("primary_label", Some(own("MemoryEntity"))),
    ];
    assert(metas_view(metadata@) =~= entity_node(name@).metadata);
    WorkspaceGraphNode {
        node_id: cat("ladybug-entity:", name),
        node_type: own("MemoryEntity"),
        title: own(name),
        subtitle: None,
        metadata,
    }
}

/// `m` with `(key, v)` appended when `v` is present.
pub open spec fn meta_if(
    m: Seq<(Seq<char>, MetaJson)>,
    key: Seq<char>,
    v: Option<Seq<char>>,
) -> Seq<(Seq<char>, MetaJson)> {
    match v {
        Some(x) => m.push((key, mtext(x))),
        None => m,
    }
}

pub open spec fn opt_str_view(o: Option<&str>) -> Option<Seq<char>> {
    match o {
        Some(s) => Some(s@),
        None => None,
    }
}

/// The node of a Ladybug graph row: titled by its name (its id when the name is empty),
/// subtitled by its qualified name, with the present optional columns as metadata.
pub open spec fn ladybug_node(
    node_id: Seq<char>,
    primary_label: Seq<char>,
    name: Seq<char>,
    path: Option<Seq<char>>,
    qualified_name: Option<Seq<char>>,
    repo_id: Option<Seq<char>>,
    project_id: Option<Seq<char>>,
    text: Option<Seq<char>>,
) -> NodeView {
    NodeView {
        node_id: "ladybug:"@ + node_id,
        node_type: primary_label,
        title: if name.len() == 0 {
            node_id
        } else {
            name
        },
        subtitle: qualified_name,
        metadata: meta_if(
            meta_if(
                meta_if(
                    meta_if(
                        meta_if(
                            seq![
                                ("source"@, mtext("ladybug"@)),
                                ("primary_label"@, mtext(primary_label)),
                            ],
                            "path"@,
                            path,
                        ),
                        "qualified_name"@,
                        qualified_name,
                    ),
                    "repo_id"@,
                    repo_id,
                ),
                "project_id"@,
                project_id,
            ),
            "text"@,
            text,
        ),
    }
}

fn push_meta_if(m: &mut Vec<MetaEntry>, key: &str, v: Option<&str>)
    ensures
        metas_view(final(m)@) == meta_if(metas_view(old(m)@), key@, opt_str_view(v)),
{
    match v {
        Some(x) => {
            let ghost before = metas_view(m@);
            m.push(meta(key, Some(own(x))));
            assert(metas_view(m@) =~= before.push((key@, mtext(x@))));
        },
        None => {},
    }
}

fn opt_own(o: Option<&str>) -> (r: Option<String>)
    ensures
        opt_view(r) == opt_str_view(o),
{
    match o {
        Some(s) => Some(own(s)),
        None => None,
    }
}

/// Builds a graph node from a Ladybug result row.
pub fn make_ladybug_node(
    node_id: &str,
    primary_label: &str,
    name: &str,
    path: Option<&str>,
    qualified_name: Option<&str>,
    repo_id: Option<&str>,
    project_id: Option<&str>,
    text: Option<&str>,
) -> (n: WorkspaceGraphNode)
    ensures
        n@ == ladybug_node(
            node_id@,
            primary_label@,
            name@,
            opt_str_view(path),
            opt_str_view(qualified_name),
            opt_str_view(repo_id),
            opt_str_view(project_id),
            opt_str_view(text),
        ),
{
    let title = if name.is_empty() {
        own(node_id)
    } else {
        own(name)
    };
    let mut metadata = vec![
        meta("source", Some(own("ladybug"))),
        meta("primary_label", Some(own(primary_label))),
    ];
    assert(metas_view(metadata@) =~= seq![
        ("source"@, mtext("ladybug"@)),
        ("primary_label"@, mtext(primary_label@)),
    ]);
    push_meta_if(&mut metadata, "path", path);
    push_meta_if(&mut metadata, "qualified_name", qualified_name);
    push_meta_if(&mut metadata, "repo_id", repo_id);
    push_meta_if(&mut metadata, "project_id", project_id);
    push_meta_if(&mut metadata, "text", text);
    WorkspaceGraphNode {
        node_id: cat("ladybug:", node_id),
        node_type: own(primary_label),
        title,
        subtitle: opt_own(qualified_name),
        metadata,
    }
}

/// The edges of entity relation rows `(source name, target name, relation type)`.
pub open spec fn entity_edges(rows: Seq<(String, String, String)>) -> Seq<EdgeView>
    decreases rows.len(),
{
    if rows.len() == 0 {
        Seq::<EdgeView>::empty()
    } else {
        let r = rows.last();
        entity_edges(rows.drop_last()).push(
            ladybug_edge("ladybug-entity:"@ + r.0@, "ladybug-entity:"@ + r.1@, r.2@),
        )
    }
}

/// Edges between memory entities for relation rows.
pub fn entity_relation_edges(rows: &Vec<(String, String, String)>) -> (r: Vec<WorkspaceGraphEdge>)
    ensures
        edges_view(r@) == entity_edges(rows@),
{
    let mut out: Vec<WorkspaceGraphEdge> = Vec::new();
    let mut i: usize = 0;
    while i < rows.len()
        invariant
            i <= rows@.len(),
            edges_view(out@) == entity_edges(rows@.take(i as int)),
        decreases rows@.len() - i,
    {
        let row = &rows[i];
        assert(rows@.take(i + 1).drop_last() =~= rows@.take(i as int));
        assert(rows@.take(i + 1).last() == *row);
        let from = cat("ladybug-entity:", row.0.as_str());
        let to = cat("ladybug-entity:", row.1.as_str());
        push_edge(&mut out, make_edge(from.as_str(), to.as_str(), row.2.as_str()));
        i = i + 1;
    }
    assert(rows@.take(rows@.len() as int) =~= rows@);
    out
}

/// Entity nodes for a list of names, in order.
pub fn entity_nodes(names: &Vec<String>) -> (r: Vec<WorkspaceGraphNode>)
    ensures
        nodes_view(r@) == names@.map_values(|n: String| entity_node(n@)),
{
    let mut out: Vec<WorkspaceGraphNode> = Vec::new();
    let mut i: usize = 0;
    while i < names.len()
        invariant
            i <= names@.len(),
            nodes_view(out@) == names@.take(i as int).map_values(|n: String| entity_node(n@)),
        decreases names@.len() - i,
    {
        push_node(&mut out, make_entity_node(names[i].as_str()));
        i = i + 1;
        assert(nodes_view(out@) =~= names@.take(i as int).map_values(|n: String| entity_node(n@)));
    }
    assert(names@.take(names@.len() as int) =~= names@);
    out
}

/// Nodes after adding `extra` in order, skipping ids already present.
pub open spec fn add_nodes(ns: Seq<NodeView>, extra: Seq<NodeView>) -> Seq<NodeView>
    decreases extra.len(),
{
    if extra.len() == 0 {
        ns
    } else {
        add_node(add_nodes(ns, extra.drop_last()), extra.last())
    }
}

/// No two nodes of `ns` share an id.
pub open spec fn distinct_node_ids(ns: Seq<NodeView>) -> bool {
    forall|i: int, j: int| 0 <= i < j < ns.len() ==> ns[i].node_id != ns[j].node_id
}

/// No two edges of `es` share an id.
pub open spec fn distinct_edge_ids(es: Seq<EdgeView>) -> bool {
    forall|i: int, j: int| 0 <= i < j < es.len() ==> es[i].edge_id != es[j].edge_id
}

/// Whether no two of `objs` share an object id.
pub open spec fn distinct_object_ids(objs: Seq<WorkspaceBoardObject>) -> bool {
    forall|a: int, b: int| 0 <= a < b < objs.len() ==> objs[a].object_id@ != objs[b].object_id@
}

proof fn lemma_node_id_prefixes(a: Seq<char>, b: Seq<char>, c: Seq<char>)
    ensures
        note_node_id(a) != object_node_id(b),
        board_node_id(a) != object_node_id(b),
        object_node_id(b) == object_node_id(c) ==> b == c,
{
    reveal_strlit("note:");
    reveal_strlit("object:");
    reveal_strlit("board:");
    assert(note_node_id(a)[0] == 'n');
    assert(object_node_id(b)[0] == 'o');
    assert(board_node_id(a)[0] == 'b');
    if object_node_id(b) == object_node_id(c) {
        assert(object_node_id(b).skip(7) =~= b);
        assert(object_node_id(c).skip(7) =~= c);
    }
}

proof fn lemma_board_object_nodes_distinct(acc: Seq<NodeView>, objs: Seq<WorkspaceBoardObject>)
    requires
        distinct_node_ids(acc),
        forall|k: int| 0 <= k < objs.len() ==> !has_node(acc, object_node_id(#[trigger] objs[k].object_id@)),
        distinct_object_ids(objs),
    ensures
        distinct_node_ids(board_object_nodes(acc, objs)),
    decreases objs.len(),
{
    if objs.len() > 0 {
        let o = objs[0];
        let oid = object_node_id(o.object_id@);
        let acc1 = acc.push(object_node(o));
        assert(!has_node(acc, oid));
        assert forall|i: int, j: int| 0 <= i < j < acc1.len() implies acc1[i].node_id != acc1[j].node_id by {
            if j == acc.len() && acc1[i].node_id == acc1[j].node_id {
                assert(acc[i].node_id == oid);
            }
        }
        let acc2 = match o.note_id {
            Some(nt) => add_node(acc1, note_node(nt@, title_or(o.title, nt@))),
            None => acc1,
        };
        assert(distinct_node_ids(acc2)) by {
            if acc2.len() > acc1.len() {
                let nn = acc2[acc1.len() as int];
                assert forall|i: int, j: int| 0 <= i < j < acc2.len() implies acc2[i].node_id != acc2[j].node_id by {
                    if j == acc1.len() && acc2[i].node_id == acc2[j].node_id {
                        assert(acc1[i].node_id == nn.node_id);
                        assert(has_node(acc1, nn.node_id));
                    }
                }
            }
        }
        let rest = objs.drop_first();
        assert forall|k: int| 0 <= k < rest.len() implies !has_node(acc2, object_node_id(#[trigger] rest[k].object_id@)) by {
            let id = object_node_id(rest[k].object_id@);
            assert(rest[k] == objs[k + 1]);
            assert(!has_node(acc, object_node_id(objs[k + 1].object_id@)));
            assert(objs[0].object_id@ != objs[k + 1].object_id@);
            lemma_node_id_prefixes(o.object_id@, rest[k].object_id@, o.object_id@);
            match o.note_id {
                Some(n) => lemma_node_id_prefixes(n@, rest[k].object_id@, o.object_id@),
                None => {},
            }
            if has_node(acc2, id) {
                let j = choose|j: int| 0 <= j < acc2.len() && acc2[j].node_id == id;
                if j < acc.len() {
                    assert(acc[j].node_id == id);
                }
            }
        }
        assert forall|a: int, b: int| 0 <= a < b < rest.len() implies rest[a].object_id@ != rest[b].object_id@ by {
            assert(rest[a] == objs[a + 1] && rest[b] == objs[b + 1]);
        }
        lemma_board_object_nodes_distinct(acc2, rest);
    }
}

proof fn lemma_board_object_nodes_has(acc: Seq<NodeView>, objs: Seq<WorkspaceBoardObject>)
    ensures
        forall|id: Seq<char>| has_node(acc, id) ==> has_node(board_object_nodes(acc, objs), id),
        forall|k: int|
            0 <= k < objs.len() ==> has_node(board_object_nodes(acc, objs), object_node_id(#[trigger] objs[k].object_id@)),
        forall|k: int|
            0 <= k < objs.len() && (#[trigger] objs[k].note_id) is Some ==> has_node(
                board_object_nodes(acc, objs),
                note_node_id(objs[k].note_id->Some_0@),
            ),
    decreases objs.len(),
{
    if objs.len() > 0 {
        let o = objs[0];
        let acc1 = acc.push(object_node(o));
        let acc2 = match o.note_id {
            Some(nt) => add_node(acc1, note_node(nt@, title_or(o.title, nt@))),
            None => acc1,
        };
        let rest = objs.drop_first();
        let r = board_object_nodes(acc, objs);
        assert(r == board_object_nodes(acc2, rest));
        lemma_board_object_nodes_has(acc2, rest);
        assert forall|id: Seq<char>| has_node(acc, id) implies has_node(acc2, id) by {
            let j = choose|j: int| 0 <= j < acc.len() && acc[j].node_id == id;
            assert(acc1[j] == acc[j]);
            if acc2.len() > acc1.len() {
                assert(acc2[j] == acc1[j]);
            }
        }
        assert(has_node(acc1, object_node_id(o.object_id@))) by {
            assert(acc1[acc.len() as int].node_id == object_node_id(o.object_id@));
        }
        assert(has_node(acc2, object_node_id(o.object_id@))) by {
            if acc2.len() > acc1.len() {
                let j = choose|j: int| 0 <= j < acc1.len() && acc1[j].node_id == object_node_id(o.object_id@);
                assert(acc2[j] == acc1[j]);
            }
        }
        match o.note_id {
            Some(n) => {
                let nid = note_node_id(n@);
                assert(has_node(acc2, nid)) by {
                    if !has_node(acc1, nid) {
                        assert(acc2[acc1.len() as int].node_id == nid);
                    }
                }
            },
            None => {},
        }
        assert forall|k: int| 0 <= k < objs.len() implies has_node(r, object_node_id(#[trigger] objs[k].object_id@)) by {
            if k > 0 {
                assert(rest[k - 1] == objs[k]);
            }
        }
        assert forall|k: int| 0 <= k < objs.len() && (#[trigger] objs[k].note_id) is Some implies has_node(
            r,
            note_node_id(objs[k].note_id->Some_0@),
        ) by {
            if k > 0 {
                assert(rest[k - 1] == objs[k]);
            }
        }
    }
}

/// A board's local graph has a node for the board, for each object and for each note an
/// object references; when no two of its objects share an id, no two of its nodes do, so
/// each referenced note has exactly one node however many objects reference it.
pub proof fn lemma_board_graph_nodes_distinct(
    board_id: Seq<char>,
    title: Seq<char>,
    objs: Seq<WorkspaceBoardObject>,
)
    ensures
        has_node(board_object_nodes(seq![board_node(board_id, title)], objs), board_node_id(board_id)),
        forall|k: int|
            0 <= k < objs.len() ==> has_node(
                board_object_nodes(seq![board_node(board_id, title)], objs),
                object_node_id(#[trigger] objs[k].object_id@),
            ),
        forall|k: int|
            0 <= k < objs.len() && (#[trigger] objs[k].note_id) is Some ==> has_node(
                board_object_nodes(seq![board_node(board_id, title)], objs),
                note_node_id(objs[k].note_id->Some_0@),
            ),
        distinct_object_ids(objs) ==> distinct_node_ids(
            board_object_nodes(seq![board_node(board_id, title)], objs),
        ),
{
    let acc = seq![board_node(board_id, title)];
    assert(acc[0].node_id == board_node_id(board_id));
    assert(has_node(acc, board_node_id(board_id)));
    lemma_board_object_nodes_has(acc, objs);
    if !distinct_object_ids(objs) {
        return;
    }
    assert forall|k: int| 0 <= k < objs.len() implies !has_node(acc, object_node_id(#[trigger] objs[k].object_id@)) by {
        lemma_node_id_prefixes(board_id, objs[k].object_id@, objs[k].object_id@);
        if has_node(acc, object_node_id(objs[k].object_id@)) {
            let j = choose|j: int| 0 <= j < acc.len() && acc[j].node_id == object_node_id(objs[k].object_id@);
            assert(j == 0);
        }
    }
    lemma_board_object_nodes_distinct(acc, objs);
}

/// Merging nodes into a graph whose node ids are distinct keeps them distinct, keeps the
/// graph's nodes first and in order, and leaves a node with the id of every added node.
pub proof fn lemma_add_nodes_distinct(ns: Seq<NodeView>, extra: Seq<NodeView>)
    requires
        distinct_node_ids(ns),
    ensures
        distinct_node_ids(add_nodes(ns, extra)),
        add_nodes(ns, extra).len() >= ns.len(),
        add_nodes(ns, extra).take(ns.len() as int) == ns,
        forall|k: int| 0 <= k < extra.len() ==> has_node(add_nodes(ns, extra), #[trigger] extra[k].node_id),
    decreases extra.len(),
{
    if extra.len() > 0 {
        let prev = add_nodes(ns, extra.drop_last());
        lemma_add_nodes_distinct(ns, extra.drop_last());
        let n = extra.last();
        let next = add_node(prev, n);
        if !has_node(prev, n.node_id) {
            assert(next.take(ns.len() as int) =~= prev.take(ns.len() as int));
            assert(has_node(next, n.node_id)) by {
                assert(next[prev.len() as int].node_id == n.node_id);
            }
        }
        assert forall|k: int| 0 <= k < extra.len() implies has_node(next, #[trigger] extra[k].node_id) by {
            if k < extra.len() - 1 {
                assert(extra.drop_last()[k] == extra[k]);
                let j = choose|j: int| 0 <= j < prev.len() && prev[j].node_id == extra[k].node_id;
                assert(next[j] == prev[j]);
            }
        }
    } else {
        assert(ns.take(ns.len() as int) =~= ns);
    }
}

/// Merging edges into a graph whose edge ids are distinct keeps them distinct, keeps the
/// graph's edges first and in order, and leaves an edge with the id of every added edge.
pub proof fn lemma_add_edges_distinct(es: Seq<EdgeView>, extra: Seq<EdgeView>)
    requires
        distinct_edge_ids(es),
    ensures
        distinct_edge_ids(add_edges(es, extra)),
        add_edges(es, extra).len() >= es.len(),
        add_edges(es, extra).take(es.len() as int) == es,
        forall|k: int| 0 <= k < extra.len() ==> has_edge(add_edges(es, extra), #[trigger] extra[k].edge_id),
    decreases extra.len(),
{
    if extra.len() > 0 {
        let prev = add_edges(es, extra.drop_last());
        lemma_add_edges_distinct(es, extra.drop_last());
        let e = extra.last();
        let next = add_edge(prev, e);
        if !has_edge(prev, e.edge_id) {
            assert(next.take(es.len() as int) =~= prev.take(es.len() as int));
            assert(has_edge(next, e.edge_id)) by {
                assert(next[prev.len() as int].edge_id == e.edge_id);
            }
        }
        assert forall|k: int| 0 <= k < extra.len() implies has_edge(next, #[trigger] extra[k].edge_id) by {
            if k < extra.len() - 1 {
                assert(extra.drop_last()[k] == extra[k]);
                let j = choose|j: int| 0 <= j < prev.len() && prev[j].edge_id == extra[k].edge_id;
                assert(next[j] == prev[j]);
            }
        }
    } else {
        assert(es.take(es.len() as int) =~= es);
    }
}

/// Edges after adding `extra` in order, skipping ids already present.
pub open spec fn add_edges(es: Seq<EdgeView>, extra: Seq<EdgeView>) -> Seq<EdgeView>
    decreases extra.len(),
{
    if extra.len() == 0 {
        es
    } else {
        add_edge(add_edges(es, extra.drop_last()), extra.last())
    }
}

/// Merges enrichment nodes and edges into a local graph, keeping one node per node id
/// and one edge per edge id among the added ones.
pub fn merge_graph(
    nodes: &mut Vec<WorkspaceGraphNode>,
    edges: &mut Vec<WorkspaceGraphEdge>,
    extra_nodes: Vec<WorkspaceGraphNode>,
    extra_edges: Vec<WorkspaceGraphEdge>,
)
    ensures
        nodes_view(final(nodes)@) == add_nodes(nodes_view(old(nodes)@), nodes_view(extra_nodes@)),
        edges_view(final(edges)@) == add_edges(edges_view(old(edges)@), edges_view(extra_edges@)),
{
    let ghost n0 = nodes_view(nodes@);
    let ghost e0 = edges_view(edges@);
    let ghost xn = nodes_view(extra_nodes@);
    let ghost xe = edges_view(extra_edges@);
    let mut i: usize = 0;
    assert(xn.take(0) =~= Seq::<NodeView>::empty());
    while i < extra_nodes.len()
        invariant
            i <= extra_nodes@.len(),
            xn == nodes_view(extra_nodes@),
            nodes_view(nodes@) == add_nodes(n0, xn.take(i as int)),
        decreases extra_nodes@.len() - i,
    {
        assert(xn.take(i + 1).drop_last() =~= xn.take(i as int));
        assert(xn.take(i + 1).last() == extra_nodes@[i as int]@);
        let n = extra_nodes[i].clone_node();
        push_node_unique(nodes, n);
        i = i + 1;
    }
    assert(xn.take(xn.len() as int) =~= xn);
    let mut j: usize = 0;
    assert(xe.take(0) =~= Seq::<EdgeView>::empty());
    while j < extra_edges.len()
        invariant
            j <= extra_edges@.len(),
            xe == edges_view(extra_edges@),
            edges_view(edges@) == add_edges(e0, xe.take(j as int)),
        decreases extra_edges@.len() - j,
    {
        assert(xe.take(j + 1).drop_last() =~= xe.take(j as int));
        assert(xe.take(j + 1).last() == extra_edges@[j as int]@);
        let e = extra_edges[j].clone_edge();
        push_edge_unique(edges, e);
        j = j + 1;
    }
    assert(xe.take(xe.len() as int) =~= xe);
}

/// `names` with the names of `extra` appended in order, each name kept once.
pub open spec fn add_names(names: Seq<Seq<char>>, extra: Seq<Seq<char>>) -> Seq<Seq<char>>
    decreases extra.len(),
{
    if extra.len() == 0 {
        names
    } else {
        let acc = add_names(names, extra.drop_last());
        if acc.contains(extra.last()) {
            acc
        } else {
            acc.push(extra.last())
        }
    }
}

/// Appends the names of `extra` that `names` does not hold yet.
pub fn merge_names(names: &mut Vec<String>, extra: &Vec<String>)
    ensures
        strs_view(final(names)@) == add_names(strs_view(old(names)@), strs_view(extra@)),
{
    let ghost n0 = strs_view(names@);
    let ghost xs = strs_view(extra@);
    let mut i: usize = 0;
    assert(xs.take(0) =~= Seq::<Seq<char>>::empty());
    while i < extra.len()
        invariant
            i <= extra@.len(),
            xs == strs_view(extra@),
            strs_view(names@) == add_names(n0, xs.take(i as int)),
        decreases extra@.len() - i,
    {
        assert(xs.take(i + 1).drop_last() =~= xs.take(i as int));
        assert(xs.take(i + 1).last() == extra@[i as int]@);
        let mut found = false;
        let mut k: usize = 0;
        while k < names.len()
            invariant
                i < extra@.len(),
                k <= names@.len(),
                !found ==> forall|q: int| 0 <= q < k ==> names@[q]@ != extra@[i as int]@,
                found ==> strs_view(names@).contains(extra@[i as int]@),
            decreases names@.len() - k,
        {
            if names[k] == extra[i] {
                found = true;
                assert(strs_view(names@)[k as int] == extra@[i as int]@);
            }
            k = k + 1;
        }
        if !found {
            assert forall|q: int| 0 <= q < strs_view(names@).len() implies strs_view(names@)[q]
                != extra@[i as int]@ by {
                assert(strs_view(names@)[q] == names@[q]@);
            }
            let ghost before = strs_view(names@);
            names.push(own(extra[i].as_str()));
            assert(strs_view(names@) =~= before.push(extra@[i as int]@));
        }
        i = i + 1;
    }
    assert(xs.take(xs.len() as int) =~= xs);
}

/// Endpoint ids of sampled relation rows `(source, target, type)`, each kept once, in
/// order of first appearance.
pub open spec fn endpoints(rows: Seq<(String, String, String)>) -> Seq<Seq<char>>
    decreases rows.len(),
{
    if rows.len() == 0 {
        Seq::<Seq<char>>::empty()
    } else {
        let r = rows.last();
        add_names(endpoints(rows.drop_last()), seq![r.0@, r.1@])
    }
}

/// Collects the endpoint ids of sampled relation rows.
pub fn collect_endpoints(rows: &Vec<(String, String, String)>) -> (r: Vec<String>)
    ensures
        strs_view(r@) == endpoints(rows@),
{
    let mut out: Vec<String> = Vec::new();
    let mut i: usize = 0;
    assert(strs_view(out@) =~= Seq::<Seq<char>>::empty());
    while i < rows.len()
        invariant
            i <= rows@.len(),
            strs_view(out@) == endpoints(rows@.take(i as int)),
        decreases rows@.len() - i,
    {
        let row = &rows[i];
        assert(rows@.take(i + 1).drop_last() =~= rows@.take(i as int));
        assert(rows@.take(i + 1).last() == *row);
        let pair = vec![own(row.0.as_str()), own(row.1.as_str())];
        let ghost xs = strs_view(pair@);
        assert(xs =~= seq![row.0@, row.1@]);
        assert(xs.drop_last() =~= seq![row.0@]);
        assert(seq![row.0@].drop_last() =~= Seq::<Seq<char>>::empty());
        merge_names(&mut out, &pair);
        i = i + 1;
    }
    assert(rows@.take(rows@.len() as int) =~= rows@);
    out
}

/// Edges of sampled rows between `ladybug:` nodes, in order.
pub open spec fn sample_edges(rows: Seq<(String, String, String)>) -> Seq<EdgeView>
    decreases rows.len(),
{
    if rows.len() == 0 {
        Seq::<EdgeView>::empty()
    } else {
        let r = rows.last();
        sample_edges(rows.drop_last()).push(
            ladybug_edge("ladybug:"@ + r.0@, "ladybug:"@ + r.1@, r.2@),
        )
    }
}

/// Edges of an explored sample: one per sampled row, then the rows of the density query
/// whose edge ids are not present yet.
pub fn explore_edges(
    sample_rows: &Vec<(String, String, String)>,
    density_rows: &Vec<(String, String, String)>,
) -> (r: Vec<WorkspaceGraphEdge>)
    ensures
        edges_view(r@) == add_edges(sample_edges(sample_rows@), sample_edges(density_rows@)),
{
    let mut out: Vec<WorkspaceGraphEdge> = Vec::new();
    let mut i: usize = 0;
    while i < sample_rows.len()
        invariant
            i <= sample_rows@.len(),
            edges_view(out@) == sample_edges(sample_rows@.take(i as int)),
        decreases sample_rows@.len() - i,
    {
        let row = &sample_rows[i];
        assert(sample_rows@.take(i + 1).drop_last() =~= sample_rows@.take(i as int));
        assert(sample_rows@.take(i + 1).last() == *row);
        let from = cat("ladybug:", row.0.as_str());
        let to = cat("ladybug:", row.1.as_str());
        push_edge(&mut out, make_edge(from.as_str(), to.as_str(), row.2.as_str()));
        i = i + 1;
    }
    assert(sample_rows@.take(sample_rows@.len() as int) =~= sample_rows@);
    let ghost base = edges_view(out@);
    let mut j: usize = 0;
    while j < density_rows.len()
        invariant
            j <= density_rows@.len(),
            base == sample_edges(sample_rows@),
            edges_view(out@) == add_edges(base, sample_edges(density_rows@.take(j as int))),
        decreases density_rows@.len() - j,
    {
        let row = &density_rows[j];
        assert(density_rows@.take(j + 1).drop_last() =~= density_rows@.take(j as int));
        assert(density_rows@.take(j + 1).last() == *row);
        let from = cat("ladybug:", row.0.as_str());
        let to = cat("ladybug:", row.1.as_str());
        let ghost prev = sample_edges(density_rows@.take(j as int));
        let ghost se = sample_edges(density_rows@.take(j + 1));
        let e = make_edge(from.as_str(), to.as_str(), row.2.as_str());
        assert(se == prev.push(e@));
        assert(se.drop_last() =~= prev);
        assert(se.last() == e@);
        push_edge_unique(&mut out, e);
        j = j + 1;
    }
    assert(density_rows@.take(density_rows@.len() as int) =~= density_rows@);
    out
}

} // verus!
