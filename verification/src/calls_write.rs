//! Writing the `CALLS` edges of a SCIP index as a conversation with the caller who runs
//! the statements: each caller/callee pair's edge is probed and created only when it is
//! missing, a function calling itself is passed over, and a failed request is counted
//! while the next pair follows.
use vstd::prelude::*;

use crate::codegraph::{calls_sql, edge_create, edge_probe};
use crate::file_index::{ActionView, EventView, IndexAction, IndexEvent};
use crate::scip::pairs_view;

verus! {

/// The first pair at or after `from` whose caller is not its callee, or the number of
/// pairs when there is none.
pub open spec fn next_pair(pairs: Seq<(Seq<char>, Seq<char>)>, from: nat) -> nat
    decreases pairs.len() - from,
{
    if from >= pairs.len() {
        pairs.len()
    } else if pairs[from as int].0 != pairs[from as int].1 {
        from
    } else {
        next_pair(pairs, from + 1)
    }
}

/// The probe for the `CALLS` edge of a pair.
pub open spec fn calls_probe(p: (Seq<char>, Seq<char>)) -> Seq<char> {
    edge_probe("caller"@, "Function"@, "CALLS"@, "callee"@, "Function"@, p.0, p.1)
}

/// The creation of the `CALLS` edge of a pair.
pub open spec fn calls_create(p: (Seq<char>, Seq<char>)) -> Seq<char> {
    edge_create("caller"@, "Function"@, "CALLS"@, "callee"@, "Function"@, p.0, p.1)
}

/// Mathematical value of the writing of `CALLS` edges.
pub struct CallsView {
    pub pairs: Seq<(Seq<char>, Seq<char>)>,
    /// The pair being written (`pairs.len()` once done).
    pub pos: nat,
    /// Whether the edge of the pair was found missing and is being created.
    pub creating: bool,
    /// Edges created.
    pub written: nat,
    /// Requests that failed.
    pub errors: nat,
}

/// The request for the pair at `pos`: its probe, or the end.
pub open spec fn request_at(v: CallsView) -> ActionView {
    if v.pos < v.pairs.len() {
        ActionView::Probe(calls_probe(v.pairs[v.pos as int]))
    } else {
        ActionView::Finished
    }
}

/// Moving on to the next pair after `v.pos`.
pub open spec fn advanced(v: CallsView, written: nat, errors: nat) -> CallsView {
    CallsView { pos: next_pair(v.pairs, v.pos + 1), creating: false, written, errors, ..v }
}

/// One answer `e` to the pending request of `v`: the new state `v2` and the next request
/// `a`. A probe that found the edge moves on; one that did not asks for its creation,
/// which counts as written once done; a failed or unexpected answer counts as an error
/// and moves on; once every pair is done, every answer is met with `Finished`.
pub open spec fn calls_step(v: CallsView, e: EventView, v2: CallsView, a: ActionView) -> bool {
    &&& v2.pairs == v.pairs
    &&& v.pos >= v.pairs.len() ==> v2 == v && a == ActionView::Finished
    &&& v.pos < v.pairs.len() && !v.creating ==> match e {
        EventView::Probed(true) => v2 == advanced(v, v.written, v.errors),
        EventView::Probed(false) => v2 == CallsView { creating: true, ..v },
        _ => v2 == advanced(v, v.written, v.errors + 1),
    }
    &&& v.pos < v.pairs.len() && v.creating ==> match e {
        EventView::Done => v2 == advanced(v, v.written + 1, v.errors),
        _ => v2 == advanced(v, v.written, v.errors + 1),
    }
    &&& a == if v2.creating {
        ActionView::Run(calls_create(v2.pairs[v2.pos as int]))
    } else {
        request_at(v2)
    }
}

/// Against a database whose `CALLS` edges are `edges` and which answers the probe of the
/// pair in hand truthfully, handling that pair leaves the database with the pair's edge
/// exactly once: its creation is asked for only when the edge is missing (never a
/// duplicate), and is counted as written once done; an edge already there is left alone
/// and nothing is counted. The pair in hand never calls itself.
pub proof fn lemma_calls_edge_set(
    edges: Set<(Seq<char>, Seq<char>)>,
    v: CallsView,
    v2: CallsView,
    a1: ActionView,
    v3: CallsView,
    a2: ActionView,
)
    requires
        v.pos < v.pairs.len(),
        !v.creating,
        v.pairs[v.pos as int].0 != v.pairs[v.pos as int].1,
        calls_step(v, EventView::Probed(edges.contains(v.pairs[v.pos as int])), v2, a1),
        v2.creating ==> calls_step(v2, EventView::Done, v3, a2),
    ensures
        ({
            let p = v.pairs[v.pos as int];
            let created: Set<(Seq<char>, Seq<char>)> = if a1 == ActionView::Run(calls_create(p)) {
                set![p]
            } else {
                Set::empty()
            };
            &&& p.0 != p.1
            &&& created.disjoint(edges)
            &&& edges.union(created) == edges.insert(p)
            &&& (edges.contains(p) ==> !v2.creating && v2.written == v.written)
            &&& (!edges.contains(p) ==> v2.creating && a1 == ActionView::Run(calls_create(p))
                && v3.written == v.written + 1 && v3.pos > v.pos)
        }),
{
    let p = v.pairs[v.pos as int];
    if edges.contains(p) {
        lemma_next_pair(v.pairs, v.pos + 1);
        assert(!v2.creating);
        if a1 == ActionView::Run(calls_create(p)) {
            assert(false);
        }
        assert(edges.union(Set::<(Seq<char>, Seq<char>)>::empty()) =~= edges.insert(p));
    } else {
        lemma_next_pair(v.pairs, v.pos + 1);
        assert(edges.union(set![p]) =~= edges.insert(p));
        assert(set![p].disjoint(edges));
    }
}

/// The `CALLS` edges that a list of pairs asks for: each pair whose caller is not its callee.
pub open spec fn calls_edges(pairs: Seq<(Seq<char>, Seq<char>)>) -> Set<(Seq<char>, Seq<char>)> {
    Set::new(|x: (Seq<char>, Seq<char>)| pairs.contains(x) && x.0 != x.1)
}

/// The answer of a database whose `CALLS` edges are `edges` to the pending request of
/// `v`: a creation succeeds, and a probe says whether the edge is there.
pub open spec fn db_answer(edges: Set<(Seq<char>, Seq<char>)>, v: CallsView) -> EventView {
    if v.creating {
        EventView::Done
    } else {
        EventView::Probed(edges.contains(v.pairs[v.pos as int]))
    }
}

/// The `CALLS` edges of that database once it has run the pending request of `v`.
pub open spec fn db_after(edges: Set<(Seq<char>, Seq<char>)>, v: CallsView) -> Set<(Seq<char>, Seq<char>)> {
    if v.pos < v.pairs.len() && v.creating {
        edges.insert(v.pairs[v.pos as int])
    } else {
        edges
    }
}

/// How a run that started against the edges `start` stands against the edges `edges` now:
/// the database only gained edges of pairs that call another function, every such pair
/// before the one in hand has its edge, a creation is pending only for a missing edge,
/// each edge gained was counted once as written, and nothing failed.
pub open spec fn calls_db_inv(start: Set<(Seq<char>, Seq<char>)>, edges: Set<(Seq<char>, Seq<char>)>, v: CallsView) -> bool {
    &&& start.finite()
    &&& edges.finite()
    &&& start.subset_of(edges)
    &&& forall|x: (Seq<char>, Seq<char>)| #[trigger] edges.contains(x) && !start.contains(x)
        ==> calls_edges(v.pairs).contains(x)
    &&& v.pos <= v.pairs.len()
    &&& forall|i: int| 0 <= i < v.pos && #[trigger] v.pairs[i].0 != v.pairs[i].1 ==> edges.contains(v.pairs[i])
    &&& v.pos < v.pairs.len() ==> v.pairs[v.pos as int].0 != v.pairs[v.pos as int].1
    &&& v.creating ==> v.pos < v.pairs.len() && !edges.contains(v.pairs[v.pos as int])
    &&& edges.len() == start.len() + v.written
    &&& v.errors == 0
}

/// A run begins in that standing: whatever the database holds, the writer as `start`
/// leaves it has written nothing and has only passed over pairs that call themselves.
pub proof fn lemma_calls_db_start(start: Set<(Seq<char>, Seq<char>)>, pairs: Seq<(Seq<char>, Seq<char>)>)
    requires
        start.finite(),
    ensures
        calls_db_inv(
            start,
            start,
            CallsView { pairs, pos: next_pair(pairs, 0), creating: false, written: 0, errors: 0 },
        ),
{
    lemma_next_pair(pairs, 0);
    assert forall|i: int| 0 <= i < next_pair(pairs, 0) && #[trigger] pairs[i].0 != pairs[i].1 implies start.contains(pairs[i]) by {
        lemma_next_pair_skips(pairs, 0, i);
    }
}

/// Each step of a run against a database that answers truthfully keeps that standing:
/// the database runs the request it was sent, so an edge is created only when its probe
/// found it missing (never twice), and the count of edges written grows with it.
pub proof fn lemma_calls_db_step(
    start: Set<(Seq<char>, Seq<char>)>,
    edges: Set<(Seq<char>, Seq<char>)>,
    v: CallsView,
    v2: CallsView,
    a: ActionView,
)
    requires
        calls_db_inv(start, edges, v),
        calls_step(v, db_answer(edges, v), v2, a),
    ensures
        calls_db_inv(start, db_after(edges, v), v2),
        db_after(edges, v) != edges ==> v.creating && !edges.contains(v.pairs[v.pos as int]),
{
    if v.pos < v.pairs.len() {
        let p = v.pairs[v.pos as int];
        let e2 = db_after(edges, v);
        lemma_next_pair(v.pairs, v.pos + 1);
        assert(v.pairs.contains(p));
        if !v.creating && !edges.contains(p) {
            assert(v2 == CallsView { creating: true, ..v });
        } else {
            assert(v2.pos == next_pair(v.pairs, v.pos + 1));
            assert(e2.contains(p));
            assert forall|i: int| 0 <= i < v2.pos && #[trigger] v2.pairs[i].0 != v2.pairs[i].1 implies e2.contains(v2.pairs[i]) by {
                if i > v.pos {
                    lemma_next_pair_skips(v.pairs, v.pos + 1, i);
                }
            }
        }
    }
}

/// Where a run has gone through every pair, the database holds exactly the edges it
/// started with and those of the pairs that call another function, and the count of
/// edges written is the number it gained. So a run over pairs whose edges are all there
/// already writes nothing and leaves the database as it was.
pub proof fn lemma_calls_db_end(start: Set<(Seq<char>, Seq<char>)>, edges: Set<(Seq<char>, Seq<char>)>, v: CallsView)
    requires
        calls_db_inv(start, edges, v),
        v.pos >= v.pairs.len(),
    ensures
        edges == start.union(calls_edges(v.pairs)),
        v.written == edges.len() - start.len(),
        calls_edges(v.pairs).subset_of(start) ==> edges == start && v.written == 0,
{
    assert forall|x: (Seq<char>, Seq<char>)| calls_edges(v.pairs).contains(x) implies edges.contains(x) by {
        let i = choose|i: int| 0 <= i < v.pairs.len() && v.pairs[i] == x;
        assert(v.pairs[i].0 != v.pairs[i].1);
    }
    assert(edges =~= start.union(calls_edges(v.pairs)));
    if calls_edges(v.pairs).subset_of(start) {
        assert(edges =~= start);
    }
}

/// Whether `vs`, `es` and `acts` record a run of the writer against a database that
/// answers truthfully: the writer's states, the database's `CALLS` edges before each step,
/// and the requests sent; each step answers the pending request as the database stands
/// and the database then runs it.
pub open spec fn calls_db_run(
    vs: Seq<CallsView>,
    es: Seq<Set<(Seq<char>, Seq<char>)>>,
    acts: Seq<ActionView>,
) -> bool {
    &&& vs.len() >= 1
    &&& es.len() == vs.len()
    &&& acts.len() + 1 == vs.len()
    &&& forall|k: int| 0 <= k < acts.len() ==> #[trigger] calls_step(vs[k], db_answer(es[k], vs[k]), vs[k + 1], acts[k])
    &&& forall|k: int| 0 <= k < acts.len() ==> es[k + 1] == #[trigger] db_after(es[k], vs[k])
}

/// A whole run that starts as `CallsWriter::start` leaves the writer, against a database
/// with finitely many edges that answers truthfully, and goes on until every pair is
/// done, leaves the database with exactly its first edges and those of the pairs that
/// call another function, each created once: the count of edges written is the number
/// the database gained. A run over pairs whose edges are all there already writes
/// nothing and leaves the database as it was.
pub proof fn lemma_calls_db_run(
    vs: Seq<CallsView>,
    es: Seq<Set<(Seq<char>, Seq<char>)>>,
    acts: Seq<ActionView>,
)
    requires
        calls_db_run(vs, es, acts),
        es[0].finite(),
        vs[0] == (CallsView {
            pairs: vs[0].pairs,
            pos: next_pair(vs[0].pairs, 0),
            creating: false,
            written: 0,
            errors: 0,
        }),
        vs.last().pos >= vs.last().pairs.len(),
    ensures
        es.last() == es[0].union(calls_edges(vs[0].pairs)),
        vs.last().written == es.last().len() - es[0].len(),
        calls_edges(vs[0].pairs).subset_of(es[0]) ==> es.last() == es[0] && vs.last().written == 0,
{
    let n = vs.len() - 1;
    lemma_calls_db_run_inv(vs, es, acts, n);
    lemma_calls_db_end(es[0], es[n], vs[n]);
}

proof fn lemma_calls_db_run_inv(
    vs: Seq<CallsView>,
    es: Seq<Set<(Seq<char>, Seq<char>)>>,
    acts: Seq<ActionView>,
    k: int,
)
    requires
        calls_db_run(vs, es, acts),
        es[0].finite(),
        vs[0] == (CallsView {
            pairs: vs[0].pairs,
            pos: next_pair(vs[0].pairs, 0),
            creating: false,
            written: 0,
            errors: 0,
        }),
        0 <= k < vs.len(),
    ensures
        calls_db_inv(es[0], es[k], vs[k]),
        vs[k].pairs == vs[0].pairs,
    decreases k,
{
    if k == 0 {
        lemma_calls_db_start(es[0], vs[0].pairs);
    } else {
        let j = k - 1;
        lemma_calls_db_run_inv(vs, es, acts, j);
        assert(calls_step(vs[j], db_answer(es[j], vs[j]), vs[j + 1], acts[j]));
        assert(es[j + 1] == db_after(es[j], vs[j]));
        lemma_calls_db_step(es[0], es[j], vs[j], vs[j + 1], acts[j]);
    }
}

/// The `CALLS` edges of a list of pairs being written.
pub struct CallsWriter {
    pairs: Vec<(String, String)>,
    pos: usize,
    creating: bool,
    written: usize,
    errors: usize,
}

impl View for CallsWriter {
    type V = CallsView;

    closed spec fn view(&self) -> CallsView {
        CallsView {
            pairs: pairs_view(self.pairs@),
            pos: self.pos as nat,
            creating: self.creating,
            written: self.written as nat,
            errors: self.errors as nat,
        }
    }
}

impl CallsWriter {
    /// The counts stay within the pairs passed, and a pair being worked on is one whose
    /// caller is not its callee.
    pub closed spec fn wf(&self) -> bool {
        &&& self.pos <= self.pairs@.len()
        &&& self.written + self.errors <= self.pos
        &&& self.pos < self.pairs@.len() ==> self@.pairs[self.pos as int].0 != self@.pairs[self.pos as int].1
        &&& self.creating ==> self.pos < self.pairs@.len()
    }

    fn seek(&self, from: usize) -> (r: usize)
        requires
            from <= self.pairs@.len(),
        ensures
            r == next_pair(self@.pairs, from as nat),
    {
        let mut i = from;
        while i < self.pairs.len() && crate::text::str_eq(self.pairs[i].0.as_str(), self.pairs[i].1.as_str())
            invariant
                from <= i <= self.pairs@.len(),
                next_pair(self@.pairs, from as nat) == next_pair(self@.pairs, i as nat),
            decreases self.pairs@.len() - i,
        {
            i = i + 1;
        }
        i
    }

    fn request(&self) -> (r: IndexAction)
        requires
            self.pos <= self.pairs@.len(),
            self.pos < self.pairs@.len() ==> self@.pairs[self.pos as int].0 != self@.pairs[self.pos as int].1,
        ensures
            r@ == request_at(self@),
    {
        if self.pos < self.pairs.len() {
            assert(self@.pairs[self.pos as int] == (self.pairs@[self.pos as int].0@, self.pairs@[self.pos as int].1@));
            match calls_sql(self.pairs[self.pos].0.as_str(), self.pairs[self.pos].1.as_str()) {
                Some((probe, _create)) => IndexAction::Probe(probe),
                None => {
                    proof {
                        assert(false);
                    }
                    IndexAction::Finished
                },
            }
        } else {
            IndexAction::Finished
        }
    }

    /// Starts writing the edges of `pairs` (caller and callee primary keys): the first
    /// request probes the first pair whose caller is not its callee.
    pub fn start(pairs: Vec<(String, String)>) -> (r: (CallsWriter, IndexAction))
        ensures
            r.0.wf(),
            r.0@ == (CallsView {
                pairs: pairs_view(pairs@),
                pos: next_pair(pairs_view(pairs@), 0),
                creating: false,
                written: 0,
                errors: 0,
            }),
            r.1@ == request_at(r.0@),
    {
        let mut w = CallsWriter { pairs, pos: 0, creating: false, written: 0, errors: 0 };
        w.pos = w.seek(0);
        proof {
            lemma_next_pair(w@.pairs, 0);
        }
        let a = w.request();
        (w, a)
    }

    /// The number of edges created and of failed requests so far.
    pub fn counts(&self) -> (r: (usize, usize))
        ensures
            r.0 == self@.written,
            r.1 == self@.errors,
    {
        (self.written, self.errors)
    }

    /// Takes the answer to the pending request and gives the next. A probe that found the
    /// edge moves on; one that did not asks for its creation, which counts as written once
    /// done. A failed request, or an answer the request does not have, counts as an error
    /// and moves on. Once every pair is done, every answer is met with `Finished`.
    pub fn step(&mut self, event: IndexEvent) -> (r: IndexAction)
        requires
            old(self).wf(),
        ensures
            final(self).wf(),
            final(self)@.pairs == old(self)@.pairs,
            calls_step(old(self)@, event@, final(self)@, r@),
    {
        if self.pos >= self.pairs.len() {
            return IndexAction::Finished;
        }
        let ghost v = self@;
        let (done_ok, failed) = if self.creating {
            match event {
                IndexEvent::Done => (true, false),
                _ => (false, true),
            }
        } else {
            match event {
                IndexEvent::Probed(true) => (false, false),
                IndexEvent::Probed(false) => {
                    assert(v.pairs[v.pos as int] == (self.pairs@[self.pos as int].0@, self.pairs@[self.pos as int].1@));
                    self.creating = true;
                    return match calls_sql(self.pairs[self.pos].0.as_str(), self.pairs[self.pos].1.as_str()) {
                        Some((_probe, create)) => IndexAction::Run(create),
                        None => {
                            proof {
                                assert(false);
                            }
                            IndexAction::Finished
                        },
                    };
                },
                _ => (false, true),
            }
        };
        if done_ok {
            self.written = self.written + 1;
        }
        if failed {
            self.errors = self.errors + 1;
        }
        self.creating = false;
        let next = self.seek(self.pos + 1);
        proof {
            lemma_next_pair(v.pairs, v.pos + 1);
        }
        self.pos = next;
        self.request()
    }
}

proof fn lemma_next_pair_skips(pairs: Seq<(Seq<char>, Seq<char>)>, from: nat, i: int)
    requires
        from <= i < next_pair(pairs, from),
    ensures
        i < pairs.len(),
        pairs[i].0 == pairs[i].1,
    decreases pairs.len() - from,
{
    if from < pairs.len() && pairs[from as int].0 == pairs[from as int].1 && i > from {
        lemma_next_pair_skips(pairs, from + 1, i);
    }
}

proof fn lemma_next_pair(pairs: Seq<(Seq<char>, Seq<char>)>, from: nat)
    ensures
        from <= pairs.len() ==> from <= next_pair(pairs, from),
        next_pair(pairs, from) <= pairs.len() || next_pair(pairs, from) == from,
        next_pair(pairs, from) < pairs.len() ==> pairs[next_pair(pairs, from) as int].0 != pairs[next_pair(pairs, from) as int].1,
    decreases pairs.len() - from,
{
    if from < pairs.len() && pairs[from as int].0 == pairs[from as int].1 {
        lemma_next_pair(pairs, from + 1);
    }
}

} // verus!
