//! Graph route logic over local data: the response envelope, merging Ladybug enrichment
//! into a local graph, and the local search over notes and ingest receipts that backs
//! the entity fallback and the picker.
use vstd::prelude::*;

use crate::graph::{add_edges, add_nodes, merge_graph};
use crate::model::{
    cat, clone_opt, clone_strs, edges_view, meta, meta_list, metas_view, mtext,
    nodes_view, opt_view, own, strs_view, GraphResponse, MetaJson, NodeView,
    WorkspaceGraphEdge, WorkspaceGraphNode, WorkspaceGraphSeed, WorkspaceIngestPayload,
    WorkspaceNoteDocument,
};
use crate::text::{
    chars_of, contains, contains_exec, lemma_find, occurs_at, to_lowercase, unicode_lowercase,
};

verus! {

/// A graph response with status `ok`, rooted at the given seed.
pub fn graph_response(
    seed_type: &str,
    seed_id: &str,
    title: &str,
    nodes: Vec<WorkspaceGraphNode>,
    edges: Vec<WorkspaceGraphEdge>,
) -> (r: GraphResponse)
    ensures
        r.status@ == "ok"@,
        r.seed.seed_type@ == seed_type@,
        r.seed.seed_id@ == seed_id@,
        r.seed.title@ == title@,
        r.nodes == nodes,
        r.edges == edges,
{
    GraphResponse {
        status: own("ok"),
        seed: WorkspaceGraphSeed {
            seed_type: own(seed_type),
            seed_id: own(seed_id),
            title: own(title),
        },
        nodes,
        edges,
    }
}

/// The graph answered when the note (`is_note`) or board at its root cannot be read: no
/// nodes or edges, titled `Error` when reading it failed, and `Unknown Note` or `Unknown
/// Board` when there is none with that id.
pub fn unreadable_graph(is_note: bool, seed_id: &str, failed: bool) -> (r: GraphResponse)
    ensures
        r.status@ == "ok"@,
        r.seed.seed_type@ == if is_note { "note"@ } else { "board"@ },
        r.seed.seed_id@ == seed_id@,
        r.seed.title@ == if failed {
            "Error"@
        } else if is_note {
            "Unknown Note"@
        } else {
            "Unknown Board"@
        },
        r.nodes@.len() == 0,
        r.edges@.len() == 0,
{
    let seed_type = if is_note { "note" } else { "board" };
    let title = if failed {
        "Error"
    } else if is_note {
        "Unknown Note"
    } else {
        "Unknown Board"
    };
    graph_response(seed_type, seed_id, title, Vec::new(), Vec::new())
}

/// The graph response of a local graph after Ladybug enrichment: on success the
/// enrichment's nodes and edges are merged in (one per id among the added ones); on
/// failure the local graph is answered as it is.
pub fn enriched_response(
    seed_type: &str,
    seed_id: &str,
    title: &str,
    nodes: Vec<WorkspaceGraphNode>,
    edges: Vec<WorkspaceGraphEdge>,
    enrichment: Result<(Vec<WorkspaceGraphNode>, Vec<WorkspaceGraphEdge>), String>,
) -> (r: GraphResponse)
    ensures
        r.status@ == "ok"@,
        r.seed.seed_type@ == seed_type@,
        r.seed.seed_id@ == seed_id@,
        r.seed.title@ == title@,
        match enrichment {
            Ok((xn, xe)) => nodes_view(r.nodes@) == add_nodes(nodes_view(nodes@), nodes_view(xn@))
                && edges_view(r.edges@) == add_edges(edges_view(edges@), edges_view(xe@)),
            Err(_) => r.nodes == nodes && r.edges == edges,
        },
{
    let mut nodes = nodes;
    let mut edges = edges;
    match enrichment {
        Ok((xn, xe)) => {
            merge_graph(&mut nodes, &mut edges, xn, xe);
        },
        Err(_) => {},
    }
    graph_response(seed_type, seed_id, title, nodes, edges)
}

/// The text whose keywords enrich a note graph: the title, then a space and the summary
/// when there is one.
pub fn note_keyword_source(title: &str, summary: &Option<String>) -> (r: String)
    ensures
        r@ == match opt_view(*summary) {
            Some(s) => title@ + " "@ + s,
            None => title@,
        },
{
    match summary {
        Some(s) => {
            let mut r = cat(title, " ");
            r.append(s.as_str());
            r
        },
        None => own(title),
    }
}

/// `ws` joined with single spaces.
pub open spec fn join_words(ws: Seq<Seq<char>>) -> Seq<char>
    decreases ws.len(),
{
    if ws.len() == 0 {
        Seq::<char>::empty()
    } else if ws.len() == 1 {
        ws[0]
    } else {
        join_words(ws.drop_last()) + " "@ + ws.last()
    }
}

/// The strings of `v` joined with single spaces.
pub fn join_with_spaces(v: &Vec<String>) -> (r: String)
    ensures
        r@ == join_words(strs_view(v@)),
{
    let mut r = String::new();
    let mut i: usize = 0;
    proof {
        reveal_strlit(" ");
    }
    while i < v.len()
        invariant
            i <= v@.len(),
            r@ == join_words(strs_view(v@).take(i as int)),
        decreases v@.len() - i,
    {
        let ghost ws = strs_view(v@).take(i + 1);
        assert(ws.drop_last() =~= strs_view(v@).take(i as int));
        assert(ws.last() == v@[i as int]@);
        if i > 0 {
            r.append(" ");
        } else {
            assert(r@ =~= Seq::<char>::empty());
        }
        r.append(v[i].as_str());
        i = i + 1;
    }
    assert(strs_view(v@).take(v@.len() as int) =~= strs_view(v@));
    r
}

/// The text searched for a record: its lower-cased title, summary and space-joined tags,
/// separated by spaces.
pub open spec fn haystack(title: Seq<char>, summary: Seq<char>, tags: Seq<Seq<char>>) -> Seq<char> {
    unicode_lowercase(title) + " "@ + unicode_lowercase(summary) + " "@ + unicode_lowercase(
        join_words(tags),
    )
}

fn haystack_exec(title: &str, summary: &str, tags: &Vec<String>) -> (r: Vec<char>)
    ensures
        r@ == haystack(title@, summary@, strs_view(tags@)),
{
    let mut s = to_lowercase(title);
    s.append(" ");
    s.append(to_lowercase(summary).as_str());
    s.append(" ");
    s.append(to_lowercase(join_with_spaces(tags).as_str()).as_str());
    chars_of(s.as_str())
}

/// The summary of a note as searched: empty when absent.
pub open spec fn summary_text(o: Option<String>) -> Seq<char> {
    match o {
        Some(s) => s@,
        None => Seq::<char>::empty(),
    }
}

/// Whether a note matches a lower-cased search text.
pub open spec fn note_matches(n: WorkspaceNoteDocument, search: Seq<char>) -> bool {
    contains(haystack(n.title@, summary_text(n.summary), strs_view(n.tags@)), search)
}

/// Whether an ingest receipt matches a lower-cased search text.
pub open spec fn ingest_matches(g: WorkspaceIngestPayload, search: Seq<char>) -> bool {
    contains(haystack(g.title@, g.summary@, strs_view(g.tags@)), search)
}

fn note_matches_exec(n: &WorkspaceNoteDocument, search: &Vec<char>) -> (r: bool)
    ensures
        r == note_matches(*n, search@),
{
    let summary = match &n.summary {
        Some(s) => own(s.as_str()),
        None => String::new(),
    };
    let h = haystack_exec(n.title.as_str(), summary.as_str(), &n.tags);
    contains_exec(h.as_slice(), search.as_slice())
}

fn ingest_matches_exec(g: &WorkspaceIngestPayload, search: &Vec<char>) -> (r: bool)
    ensures
        r == ingest_matches(*g, search@),
{
    let h = haystack_exec(g.title.as_str(), g.summary.as_str(), &g.tags);
    contains_exec(h.as_slice(), search.as_slice())
}

/// The fallback node of a matching note.
pub open spec fn note_hit(n: WorkspaceNoteDocument) -> NodeView {
    NodeView {
        node_id: "note:"@ + n.note_id@,
        node_type: "note"@,
        title: n.title@,
        subtitle: opt_view(n.summary),
        metadata: seq![
            ("source"@, mtext("local"@)),
            ("tags"@, MetaJson::List(strs_view(n.tags@))),
            ("graph_status"@, mtext(n.graph_status@)),
        ],
    }
}

/// The fallback node of a matching ingest receipt.
pub open spec fn ingest_hit(g: WorkspaceIngestPayload) -> NodeView {
    NodeView {
        node_id: "artifact:"@ + g.ingest_id@,
        node_type: "ingest"@,
        title: g.title@,
        subtitle: Some(g.summary@),
        metadata: seq![
            ("source"@, mtext("local"@)),
            ("board_id"@, mtext(g.board_id@)),
            ("scope"@, mtext(g.ingest_scope@)),
        ],
    }
}

/// Fallback nodes of the matching notes, in order.
pub open spec fn note_hits(ns: Seq<WorkspaceNoteDocument>, search: Seq<char>) -> Seq<NodeView>
    decreases ns.len(),
{
    if ns.len() == 0 {
        Seq::empty()
    } else {
        let rest = note_hits(ns.drop_last(), search);
        if note_matches(ns.last(), search) {
            rest.push(note_hit(ns.last()))
        } else {
            rest
        }
    }
}

/// Fallback nodes of the matching ingest receipts, in order.
pub open spec fn ingest_hits(gs: Seq<WorkspaceIngestPayload>, search: Seq<char>) -> Seq<NodeView>
    decreases gs.len(),
{
    if gs.len() == 0 {
        Seq::empty()
    } else {
        let rest = ingest_hits(gs.drop_last(), search);
        if ingest_matches(gs.last(), search) {
            rest.push(ingest_hit(gs.last()))
        } else {
            rest
        }
    }
}

/// At most the first `n` elements of `s`.
pub open spec fn first_n<A>(s: Seq<A>, n: int) -> Seq<A> {
    if s.len() <= n {
        s
    } else {
        s.take(n)
    }
}

fn note_hit_exec(n: &WorkspaceNoteDocument) -> (r: WorkspaceGraphNode)
    ensures
        r@ == note_hit(*n),
{
    let metadata = vec![
        meta("source", Some(own("local"))),
        meta_list("tags", clone_strs(&n.tags)),
        meta("graph_status", Some(own(n.graph_status.as_str()))),
    ];
    let r = WorkspaceGraphNode {
        node_id: cat("note:", n.note_id.as_str()),
        node_type: own("note"),
        title: own(n.title.as_str()),
        subtitle: clone_opt(&n.summary),
        metadata,
    };
    assert(metas_view(r.metadata@) =~= note_hit(*n).metadata);
    r
}

fn ingest_hit_exec(g: &WorkspaceIngestPayload) -> (r: WorkspaceGraphNode)
    ensures
        r@ == ingest_hit(*g),
{
    let metadata = vec![
        meta("source", Some(own("local"))),
        meta("board_id", Some(own(g.board_id.as_str()))),
        meta("scope", Some(own(g.ingest_scope.as_str()))),
    ];
    let r = WorkspaceGraphNode {
        node_id: cat("artifact:", g.ingest_id.as_str()),
        node_type: own("ingest"),
        title: own(g.title.as_str()),
        subtitle: Some(own(g.summary.as_str())),
        metadata,
    };
    assert(metas_view(r.metadata@) =~= ingest_hit(*g).metadata);
    r
}

/// Text found in `a` is found in `pre + a + post`.
proof fn lemma_contains_within(pre: Seq<char>, a: Seq<char>, post: Seq<char>, x: Seq<char>)
    requires
        contains(a, x),
    ensures
        contains(pre + a + post, x),
{
    lemma_find(a, x);
    let k = crate::text::find(a, x)->Some_0;
    let big = pre + a + post;
    assert(big.subrange(pre.len() + k, pre.len() + k + x.len()) =~= a.subrange(k, k + x.len()));
    assert(occurs_at(big, x, pre.len() + k));
    lemma_find(big, x);
}

/// A note matches a search text found in its lower-cased title, in its lower-cased
/// summary, or in its lower-cased tags joined with spaces.
pub proof fn lemma_note_match_fields(n: WorkspaceNoteDocument, search: Seq<char>)
    ensures
        contains(unicode_lowercase(n.title@), search) ==> note_matches(n, search),
        (n.summary matches Some(sm) && contains(unicode_lowercase(sm@), search)) ==> note_matches(n, search),
        contains(unicode_lowercase(join_words(strs_view(n.tags@))), search) ==> note_matches(n, search),
{
    let t = unicode_lowercase(n.title@);
    let sm = unicode_lowercase(summary_text(n.summary));
    let g = unicode_lowercase(join_words(strs_view(n.tags@)));
    let h = haystack(n.title@, summary_text(n.summary), strs_view(n.tags@));
    if contains(t, search) {
        lemma_contains_within(Seq::<char>::empty(), t, " "@ + sm + " "@ + g, search);
        assert(Seq::<char>::empty() + t + (" "@ + sm + " "@ + g) =~= h);
    }
    if n.summary is Some && contains(sm, search) {
        lemma_contains_within(t + " "@, sm, " "@ + g, search);
        assert(t + " "@ + sm + (" "@ + g) =~= h);
    }
    if contains(g, search) {
        lemma_contains_within(t + " "@ + sm + " "@, g, Seq::<char>::empty(), search);
        assert(t + " "@ + sm + " "@ + g + Seq::<char>::empty() =~= h);
    }
}

proof fn lemma_note_hits_len(ns: Seq<WorkspaceNoteDocument>, search: Seq<char>)
    ensures
        note_hits(ns, search).len() <= ns.len(),
    decreases ns.len(),
{
    if ns.len() > 0 {
        lemma_note_hits_len(ns.drop_last(), search);
    }
}

/// The hits of a prefix of the notes are a prefix of the hits of all of them.
proof fn lemma_note_hits_prefix(ns: Seq<WorkspaceNoteDocument>, search: Seq<char>, m: int)
    requires
        0 <= m <= ns.len(),
    ensures
        note_hits(ns.take(m), search).len() <= note_hits(ns, search).len(),
        note_hits(ns, search).take(note_hits(ns.take(m), search).len() as int) == note_hits(ns.take(m), search),
    decreases ns.len(),
{
    if m == ns.len() {
        assert(ns.take(m) =~= ns);
        assert(note_hits(ns, search).take(note_hits(ns, search).len() as int) =~= note_hits(ns, search));
    } else {
        let d = ns.drop_last();
        assert(ns.take(m) =~= d.take(m));
        lemma_note_hits_prefix(d, search, m);
        let p = note_hits(d.take(m), search);
        assert(note_hits(ns, search).take(p.len() as int) =~= note_hits(d, search).take(p.len() as int));
    }
}

/// A note among the first twenty whose lower-cased title, summary or tags contain the
/// search text is among the results of the local search, whatever ingest receipts come
/// with it.
pub proof fn lemma_local_search_finds_note(
    ns: Seq<WorkspaceNoteDocument>,
    gs: Seq<WorkspaceIngestPayload>,
    search: Seq<char>,
    i: int,
)
    requires
        0 <= i < ns.len(),
        i < 20,
        contains(unicode_lowercase(ns[i].title@), search) || (ns[i].summary matches Some(sm) && contains(
            unicode_lowercase(sm@),
            search,
        )) || contains(unicode_lowercase(join_words(strs_view(ns[i].tags@))), search),
    ensures
        first_n(note_hits(ns, search) + ingest_hits(gs, search), 20).contains(note_hit(ns[i])),
{
    lemma_note_match_fields(ns[i], search);
    let pre = ns.take(i);
    let upto = ns.take(i + 1);
    assert(upto.drop_last() =~= pre);
    assert(upto.last() == ns[i]);
    lemma_note_hits_prefix(ns, search, i + 1);
    lemma_note_hits_len(pre, search);
    let k = note_hits(pre, search).len() as int;
    let all = note_hits(ns, search) + ingest_hits(gs, search);
    assert(note_hits(upto, search) == note_hits(pre, search).push(note_hit(ns[i])));
    assert(note_hits(ns, search)[k] == note_hits(ns, search).take(k + 1)[k]);
    assert(all[k] == note_hit(ns[i]));
    assert(first_n(all, 20)[k] == note_hit(ns[i]));
}

/// Local stand-in for an entity graph: nodes for the notes, then the ingest receipts,
/// that match the lower-cased search text, at most 20; no edges.
pub fn local_entity_fallback(
    notes: &Vec<WorkspaceNoteDocument>,
    ingests: &Vec<WorkspaceIngestPayload>,
    search: &str,
) -> (r: (Vec<WorkspaceGraphNode>, Vec<WorkspaceGraphEdge>))
    ensures
        nodes_view(r.0@) == first_n(note_hits(notes@, search@) + ingest_hits(ingests@, search@), 20),
        r.1@.len() == 0,
{
    let sv = chars_of(search);
    let mut nodes: Vec<WorkspaceGraphNode> = Vec::new();
    let mut i: usize = 0;
    while i < notes.len()
        invariant
            i <= notes@.len(),
            sv@ == search@,
            nodes_view(nodes@) == note_hits(notes@.take(i as int), search@),
        decreases notes@.len() - i,
    {
        assert(notes@.take(i + 1).drop_last() =~= notes@.take(i as int));
        assert(notes@.take(i + 1).last() == notes@[i as int]);
        if note_matches_exec(&notes[i], &sv) {
            let ghost before = nodes_view(nodes@);
            nodes.push(note_hit_exec(&notes[i]));
            assert(nodes_view(nodes@) =~= before.push(note_hit(notes@[i as int])));
        }
        i = i + 1;
    }
    assert(notes@.take(notes@.len() as int) =~= notes@);
    let ghost base = nodes_view(nodes@);
    let mut j: usize = 0;
    while j < ingests.len()
        invariant
            j <= ingests@.len(),
            sv@ == search@,
            base == note_hits(notes@, search@),
            nodes_view(nodes@) == base + ingest_hits(ingests@.take(j as int), search@),
        decreases ingests@.len() - j,
    {
        assert(ingests@.take(j + 1).drop_last() =~= ingests@.take(j as int));
        assert(ingests@.take(j + 1).last() == ingests@[j as int]);
        if ingest_matches_exec(&ingests[j], &sv) {
            let ghost before = nodes_view(nodes@);
            nodes.push(ingest_hit_exec(&ingests[j]));
            assert(nodes_view(nodes@) =~= before.push(ingest_hit(ingests@[j as int])));
            assert(base + ingest_hits(ingests@.take(j + 1), search@) =~= (base + ingest_hits(
                ingests@.take(j as int),
                search@,
            )).push(ingest_hit(ingests@[j as int])));
        }
        j = j + 1;
    }
    assert(ingests@.take(ingests@.len() as int) =~= ingests@);
    nodes.truncate(20);
    assert(nodes_view(nodes@) =~= first_n(base + ingest_hits(ingests@, search@), 20));
    (nodes, Vec::new())
}

/// An entry of the graph picker.
#[derive(Debug, Clone)]
pub struct PickerItem {
    pub node_id: String,
    pub node_type: String,
    pub title: String,
    pub subtitle: Option<String>,
    pub source: String,
}

/// Mathematical value of a picker entry.
pub struct PickerView {
    pub node_id: Seq<char>,
    pub node_type: Seq<char>,
    pub title: Seq<char>,
    pub subtitle: Option<Seq<char>>,
    pub source: Seq<char>,
}

impl View for PickerItem {
    type V = PickerView;

    open spec fn view(&self) -> PickerView {
        PickerView {
            node_id: self.node_id@,
            node_type: self.node_type@,
            title: self.title@,
            subtitle: opt_view(self.subtitle),
            source: self.source@,
        }
    }
}

/// The picker entry of a node found by the local search.
pub open spec fn picker_of(n: NodeView) -> PickerView {
    PickerView {
        node_id: n.node_id,
        node_type: n.node_type,
        title: n.title,
        subtitle: n.subtitle,
        source: "local"@,
    }
}

/// Picker entries for a search: those of the notes, then the ingest receipts, that match
/// the lower-cased search text (every one when it is empty), at most 20.
pub fn picker_search(
    notes: &Vec<WorkspaceNoteDocument>,
    ingests: &Vec<WorkspaceIngestPayload>,
    search: &str,
) -> (r: Vec<PickerItem>)
    ensures
        r@.map_values(|p: PickerItem| p@) == first_n(
            note_hits(notes@, search@) + ingest_hits(ingests@, search@),
            20,
        ).map_values(|n: NodeView| picker_of(n)),
{
    let (nodes, _) = local_entity_fallback(notes, ingests, search);
    let ghost hits = nodes_view(nodes@);
    let mut r: Vec<PickerItem> = Vec::new();
    let mut i: usize = 0;
    while i < nodes.len()
        invariant
            i <= nodes@.len(),
            hits == nodes_view(nodes@),
            r@.map_values(|p: PickerItem| p@) == hits.take(i as int).map_values(
                |n: NodeView| picker_of(n),
            ),
        decreases nodes@.len() - i,
    {
        let n = &nodes[i];
        let item = PickerItem {
            node_id: own(n.node_id.as_str()),
            node_type: own(n.node_type.as_str()),
            title: own(n.title.as_str()),
            subtitle: clone_opt(&n.subtitle),
            source: own("local"),
        };
        let ghost before = r@;
        r.push(item);
        assert(hits.take(i + 1) =~= hits.take(i as int).push(hits[i as int]));
        assert(r@ =~= before.push(item));
        assert(r@.map_values(|p: PickerItem| p@) =~= before.map_values(|p: PickerItem| p@).push(
            picker_of(hits[i as int]),
        ));
        i = i + 1;
    }
    assert(hits.take(hits.len() as int) =~= hits);
    r
}

} // verus!
