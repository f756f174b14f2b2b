//! Graph queries against a Ladybug database through the client in [`crate::shim`]:
//! sampling for the explorer, node details, entity search and relations, repository
//! and project counts, and the operator shell's ad-hoc queries.
use vstd::prelude::*;

use crate::cypher::{
    density_query, entity_relations_query, entity_search_query, explore_sample_query,
    node_details_query, projects_query, repos_query,
};
use crate::graph::{
    add_names, collect_endpoints, entity_edges, entity_node, entity_nodes, entity_relation_edges,
    explore_edges, make_ladybug_node, merge_names,
};
use crate::model::{edges_view, nodes_view, own, strs_view, WorkspaceGraphEdge, WorkspaceGraphNode};
use crate::shim::{Connection, Error, Row};

verus! {

/// An open Ladybug database: where it lies and the connection to it.
#[derive(Debug, Clone)]
pub struct LadybugDb {
    pub path: String,
    pub conn: Connection,
}

/// Opens the database found at `found` (the caller looks for it); `None` when nothing
/// was found or it cannot be opened.
pub fn open_ladybug_db(found: Option<String>) -> (r: Option<LadybugDb>)
    ensures
        found is None ==> r is None,
        r matches Some(db) ==> found == Some(db.path) && db.conn.path_view() == db.path@,
{
    match found {
        None => None,
        Some(path) => match Connection::open(path.as_str()) {
            Ok(conn) => Some(LadybugDb { path, conn }),
            Err(_) => None,
        },
    }
}

fn error_text(e: &Error) -> (r: String)
    ensures
        r@ == e.message_view(),
{
    own(e.message())
}

/// Rows of three text columns.
fn query_rows_3(db: &LadybugDb, sql: &str) -> (r: Result<Vec<(String, String, String)>, String>)
    ensures
        r matches Ok(v) && v@.len() == 0,
{
    let mut stmt = match db.conn.prepare(sql) {
        Ok(s) => s,
        Err(e) => return Err(error_text(&e)),
    };
    let rows = stmt.query_map(
        &[],
        |row: &Row| -> (r: Result<(String, String, String), Error>)
            {
                let a: String = row.get(0)?;
                let b: String = row.get(1)?;
                let c: String = row.get(2)?;
                Ok((a, b, c))
            },
    );
    match rows {
        Ok(v) => Ok(v),
        Err(e) => Err(error_text(&e)),
    }
}

/// Node records, read from rows of node id, label, name and the optional columns.
fn query_node_detail_rows(db: &LadybugDb, sql: &str) -> (r: Result<Vec<WorkspaceGraphNode>, String>)
    ensures
        r matches Ok(v) && v@.len() == 0,
{
    let mut stmt = match db.conn.prepare(sql) {
        Ok(s) => s,
        Err(e) => return Err(error_text(&e)),
    };
    let rows = stmt.query_map(
        &[],
        |row: &Row| -> (r: Result<WorkspaceGraphNode, Error>)
            {
                let node_id: String = row.get(0)?;
                let primary_label: String = row.get(1)?;
                let name: String = row.get(2)?;
                let path: Option<String> = row.get(3).ok();
                let qualified_name: Option<String> = row.get(4).ok();
                let repo_id: Option<String> = row.get(5).ok();
                let project_id: Option<String> = row.get(6).ok();
                let text: Option<String> = row.get(7).ok();
                Ok(
                    make_ladybug_node(
                        node_id.as_str(),
                        primary_label.as_str(),
                        name.as_str(),
                        as_opt_str(&path),
                        as_opt_str(&qualified_name),
                        as_opt_str(&repo_id),
                        as_opt_str(&project_id),
                        as_opt_str(&text),
                    ),
                )
            },
    );
    match rows {
        Ok(v) => Ok(v),
        Err(e) => Err(error_text(&e)),
    }
}

fn as_opt_str(o: &Option<String>) -> (r: Option<&str>)
    ensures
        match (o, r) {
            (Some(s), Some(t)) => t@ == s@,
            (None, None) => true,
            _ => false,
        },
{
    match o {
        Some(s) => Some(s.as_str()),
        None => None,
    }
}

/// Rows of one text column.
fn query_single_string_column(db: &LadybugDb, sql: &str) -> (r: Result<Vec<String>, String>)
    ensures
        r matches Ok(v) && v@.len() == 0,
{
    let mut stmt = match db.conn.prepare(sql) {
        Ok(s) => s,
        Err(e) => return Err(error_text(&e)),
    };
    let rows = stmt.query_map(&[], |row: &Row| -> (r: Result<String, Error>) { row.get(0) });
    match rows {
        Ok(v) => Ok(v),
        Err(e) => Err(error_text(&e)),
    }
}

/// Rows of an id and a count.
fn query_repo_project_counts(db: &LadybugDb, sql: &str) -> (r: Result<Vec<(String, i64)>, String>)
    ensures
        r matches Ok(v) && v@.len() == 0,
{
    let mut stmt = match db.conn.prepare(sql) {
        Ok(s) => s,
        Err(e) => return Err(error_text(&e)),
    };
    let rows = stmt.query_map(
        &[],
        |row: &Row| -> (r: Result<(String, i64), Error>)
            {
                let id: String = row.get(0)?;
                let count: i64 = row.get(1)?;
                Ok((id, count))
            },
    );
    match rows {
        Ok(v) => Ok(v),
        Err(e) => Err(error_text(&e)),
    }
}

/// A sample of the graph, optionally scoped to a repository and project: up to `limit`
/// sampled relations, the records of their endpoints, and every relation among those
/// endpoints. The client holds no rows, so the sample is empty.
pub fn explore_graph(
    db: &LadybugDb,
    limit: i64,
    repo_id: Option<&str>,
    project_id: Option<&str>,
) -> (r: Result<(Vec<WorkspaceGraphNode>, Vec<WorkspaceGraphEdge>), String>)
    ensures
        r matches Ok((n, e)) && n@.len() == 0 && e@.len() == 0,
{
    let sample_sql = explore_sample_query(limit, repo_id, project_id);
    let sample_rows = match query_rows_3(db, sample_sql.as_str()) {
        Ok(v) => v,
        Err(e) => return Err(e),
    };
    if sample_rows.len() == 0 {
        return Ok((Vec::new(), Vec::new()));
    }
    let endpoint_ids = collect_endpoints(&sample_rows);
    let nodes = match fetch_node_details(db, &endpoint_ids) {
        Ok(n) => n,
        Err(e) => return Err(e),
    };
    let density_rows = if endpoint_ids.len() > 1 {
        let density_sql = density_query(&endpoint_ids);
        match query_rows_3(db, density_sql.as_str()) {
            Ok(v) => v,
            Err(e) => return Err(e),
        }
    } else {
        Vec::new()
    };
    let edges = explore_edges(&sample_rows, &density_rows);
    Ok((nodes, edges))
}

/// The full records of the nodes with the given ids (none asked, none fetched).
pub fn fetch_node_details(db: &LadybugDb, node_ids: &Vec<String>) -> (r: Result<
    Vec<WorkspaceGraphNode>,
    String,
>)
    ensures
        r matches Ok(v) && v@.len() == 0,
{
    if node_ids.len() == 0 {
        return Ok(Vec::new());
    }
    let sql = node_details_query(node_ids);
    query_node_detail_rows(db, sql.as_str())
}

/// Names of up to `limit` memory entities whose name contains `keyword`.
pub fn search_entities_by_keyword(db: &LadybugDb, keyword: &str, limit: i64) -> (r: Result<
    Vec<String>,
    String,
>)
    ensures
        r matches Ok(v) && v@.len() == 0,
{
    let sql = entity_search_query(keyword, limit);
    query_single_string_column(db, sql.as_str())
}

/// Names of up to `limit` memory entities whose name contains `entity_name`.
pub fn search_entities_by_name(db: &LadybugDb, entity_name: &str, limit: i64) -> (r: Result<
    Vec<String>,
    String,
>)
    ensures
        r matches Ok(v) && v@.len() == 0,
{
    let sql = entity_search_query(entity_name, limit);
    query_single_string_column(db, sql.as_str())
}

/// The graph of named memory entities: a node per name, in order, and an edge per
/// relation row (source name, target name, relation type), in order.
pub fn entity_graph_from_rows(names: &Vec<String>, rows: &Vec<(String, String, String)>) -> (r: (
    Vec<WorkspaceGraphNode>,
    Vec<WorkspaceGraphEdge>,
))
    ensures
        nodes_view(r.0@) == names@.map_values(|x: String| entity_node(x@)),
        edges_view(r.1@) == entity_edges(rows@),
{
    (entity_nodes(names), entity_relation_edges(rows))
}

/// The nodes of the named memory entities, in order, and up to `limit` relations
/// among them.
pub fn fetch_entity_relations(db: &LadybugDb, entity_names: &Vec<String>, limit: i64) -> (r:
    Result<(Vec<WorkspaceGraphNode>, Vec<WorkspaceGraphEdge>), String>)
    ensures
        r matches Ok((n, e)) && nodes_view(n@) == entity_names@.map_values(
            |x: String| entity_node(x@),
        ) && e@.len() == 0,
{
    if entity_names.len() == 0 {
        proof {
            assert(entity_names@.map_values(|x: String| entity_node(x@)) =~= Seq::empty());
            assert(nodes_view(Seq::<WorkspaceGraphNode>::empty()) =~= Seq::empty());
        }
        return Ok((Vec::new(), Vec::new()));
    }
    let sql = entity_relations_query(entity_names, limit);
    match query_rows_3(db, sql.as_str()) {
        Ok(rows) => {
            let g = entity_graph_from_rows(entity_names, &rows);
            assert(edges_view(g.1@).len() == g.1@.len());
            Ok(g)
        },
        Err(e) => Err(e),
    }
}

/// Searches that found no names find no names together.
proof fn lemma_found_nothing(rv: Seq<Result<Seq<Seq<char>>, Seq<char>>>, k: int)
    requires
        0 <= k <= rv.len(),
        forall|j: int| 0 <= j < rv.len() ==> ((#[trigger] rv[j]) matches Ok(v) ==> v.len() == 0),
    ensures
        found_names(rv.take(k)).len() == 0,
    decreases k,
{
    if k > 0 {
        assert(rv.take(k).drop_last() =~= rv.take(k - 1));
        lemma_found_nothing(rv, k - 1);
        assert(rv.take(k).last() == rv[k - 1]);
        if let Ok(v) = rv[k - 1] {
            assert(v =~= Seq::<Seq<char>>::empty());
        }
    }
}

/// Mathematical value of the outcomes of entity searches.
pub open spec fn search_results_view(v: Seq<Result<Vec<String>, String>>) -> Seq<Result<Seq<Seq<char>>, Seq<char>>> {
    v.map_values(
        |x: Result<Vec<String>, String>|
            match x {
                Ok(ns) => Ok(strs_view(ns@)),
                Err(e) => Err(e@),
            },
    )
}

/// The entity names found by keyword searches: the names of each successful search in
/// turn, each name kept once at its first place; a failed search adds nothing.
pub open spec fn found_names(results: Seq<Result<Seq<Seq<char>>, Seq<char>>>) -> Seq<Seq<char>>
    decreases results.len(),
{
    if results.len() == 0 {
        Seq::empty()
    } else {
        let prev = found_names(results.drop_last());
        match results.last() {
            Ok(ns) => add_names(prev, ns),
            Err(_) => prev,
        }
    }
}

/// The entity names found by keyword searches (see [`found_names`]).
pub fn keyword_entity_names(results: &Vec<Result<Vec<String>, String>>) -> (r: Vec<String>)
    ensures
        strs_view(r@) == found_names(search_results_view(results@)),
{
    let ghost rv = search_results_view(results@);
    let mut names: Vec<String> = Vec::new();
    let mut i: usize = 0;
    assert(rv.take(0) =~= Seq::<Result<Seq<Seq<char>>, Seq<char>>>::empty());
    assert(strs_view(names@) =~= Seq::<Seq<char>>::empty());
    while i < results.len()
        invariant
            i <= results@.len(),
            rv == search_results_view(results@),
            strs_view(names@) == found_names(rv.take(i as int)),
        decreases results@.len() - i,
    {
        assert(rv.take(i + 1).drop_last() =~= rv.take(i as int));
        assert(rv.take(i + 1).last() == rv[i as int]);
        match &results[i] {
            Ok(found) => merge_names(&mut names, found),
            Err(_) => {},
        }
        i = i + 1;
    }
    assert(rv.take(results@.len() as int) =~= rv);
    names
}

/// Up to `limit` repositories with their node counts, most nodes first.
pub fn list_repos(db: &LadybugDb, limit: i64) -> (r: Result<Vec<(String, i64)>, String>)
    ensures
        r matches Ok(v) && v@.len() == 0,
{
    let sql = repos_query(limit);
    query_repo_project_counts(db, sql.as_str())
}

/// Up to `limit` projects with their node counts, most nodes first.
pub fn list_projects(db: &LadybugDb, limit: i64) -> (r: Result<Vec<(String, i64)>, String>)
    ensures
        r matches Ok(v) && v@.len() == 0,
{
    let sql = projects_query(limit);
    query_repo_project_counts(db, sql.as_str())
}

/// Runs a read-only query for the operator shell: its columns, its rows as text, and
/// whether rows were cut at `max_rows`. The client runs no queries and answers with
/// no columns and no rows.
pub fn run_adhoc_query(db: &LadybugDb, sql: &str, max_rows: usize) -> (r: Result<
    (Vec<String>, Vec<Vec<String>>, bool),
    String,
>)
    ensures
        r matches Ok((c, rows, t)) && c@.len() == 0 && rows@.len() == 0 && !t,
{
    Ok((Vec::new(), Vec::new(), false))
}

/// Entities for a local graph: the memory entities whose names contain any of the
/// keywords (up to ten per keyword, gathered by [`keyword_entity_names`]: each name once,
/// a failed search skipped) with up to twenty relations among them (built by
/// [`entity_graph_from_rows`]). The client holds no rows, so the result is empty.
pub fn enrich_by_keywords(db: &LadybugDb, keywords: &Vec<String>) -> (r: Result<
    (Vec<WorkspaceGraphNode>, Vec<WorkspaceGraphEdge>),
    String,
>)
    ensures
        r matches Ok((n, e)) && n@.len() == 0 && e@.len() == 0,
{
    let mut results: Vec<Result<Vec<String>, String>> = Vec::new();
    let mut i: usize = 0;
    while i < keywords.len()
        invariant
            i <= keywords@.len(),
            results@.len() == i,
            forall|k: int| 0 <= k < results@.len() ==> ((#[trigger] results@[k]) matches Ok(v) && v@.len() == 0),
        decreases keywords@.len() - i,
    {
        results.push(search_entities_by_keyword(db, keywords[i].as_str(), 10));
        i = i + 1;
    }
    let entity_names = keyword_entity_names(&results);
    proof {
        let rv = search_results_view(results@);
        assert forall|k: int| 0 <= k <= rv.len() implies found_names(#[trigger] rv.take(k)).len() == 0 by {
            lemma_found_nothing(rv, k);
        }
        assert(rv.take(rv.len() as int) =~= rv);
    }
    if entity_names.len() == 0 {
        return Ok((Vec::new(), Vec::new()));
    }
    fetch_entity_relations(db, &entity_names, 20)
}

/// The graph of a named entity: the memory entities whose names contain `name` (up to
/// fifty) with up to fifty relations among them.
pub fn entity_graph(db: &LadybugDb, name: &str) -> (r: Result<
    (Vec<WorkspaceGraphNode>, Vec<WorkspaceGraphEdge>),
    String,
>)
    ensures
        r matches Ok((n, e)) && n@.len() == 0 && e@.len() == 0,
{
    let entity_names = match search_entities_by_name(db, name, 50) {
        Ok(v) => v,
        Err(e) => return Err(e),
    };
    if entity_names.len() == 0 {
        return Ok((Vec::new(), Vec::new()));
    }
    fetch_entity_relations(db, &entity_names, 50)
}

} // verus!
