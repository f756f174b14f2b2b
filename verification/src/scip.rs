//! Call edges from a SCIP index: where each symbol is defined, and which function calls
//! which, both from the index's relationships and from the occurrences inside function
//! bodies. Only Rust documents take part.
use vstd::prelude::*;
use vstd::hash_map::StringHashMap;

use crate::code::{posix, posix_rel};
use crate::model::{cat3, own};
use crate::registry::FunctionAnchorRegistry;
use crate::text::{ascii_lower, chars_of, starts_with, starts_with_exec, to_ascii_lower};

verus! {

/// An occurrence of a symbol in a document.
#[derive(Debug, Clone)]
pub struct ScipOccurrence {
    pub symbol: String,
    pub range: Vec<i32>,
    pub symbol_roles: i32,
}

/// A relationship of a symbol to another.
#[derive(Debug, Clone)]
pub struct ScipRelationship {
    pub symbol: String,
    pub is_reference: bool,
    pub is_type_definition: bool,
}

/// Information on a symbol defined in a document; `kind` is the SCIP kind number.
#[derive(Debug, Clone)]
pub struct ScipSymbol {
    pub symbol: String,
    pub kind: i32,
    pub relationships: Vec<ScipRelationship>,
}

/// A document of the index.
#[derive(Debug, Clone)]
pub struct ScipDocument {
    pub language: String,
    pub relative_path: String,
    pub occurrences: Vec<ScipOccurrence>,
    pub symbols: Vec<ScipSymbol>,
}

/// A SCIP index.
#[derive(Debug, Clone)]
pub struct ScipIndex {
    pub documents: Vec<ScipDocument>,
}

/// The document message type of the `scip` crate, carried through unread.
#[verifier::external_type_specification]
#[verifier::external_body]
pub struct ExScipDocument(scip::types::Document);

/// The symbol information message type of the `scip` crate, carried through unread.
#[verifier::external_type_specification]
#[verifier::external_body]
pub struct ExScipSymbolInformation(scip::types::SymbolInformation);

/// The index that the protobuf bytes `bytes` decode to, if they decode.
pub uninterp spec fn scip_index_of(bytes: Seq<u8>) -> Option<ScipIndex>;

/// Decodes a SCIP index from its protobuf bytes (`scip::types::Index` through
/// `protobuf::Message::parse_from_bytes`) and copies the documents. The text of a decoding
/// error is not stated.
#[verifier::external_body]
pub(crate) fn parse_scip_index(bytes: &[u8]) -> (r: Result<ScipIndex, String>)
    ensures
        match r {
            Ok(i) => scip_index_of(bytes@) == Some(i),
            Err(_) => scip_index_of(bytes@) is None,
        },
{
    let index = <scip::types::Index as protobuf::Message>::parse_from_bytes(bytes)
        .map_err(|e| e.to_string())?;
    let mut documents = Vec::new();
    for d in &index.documents {
        documents.push(convert_document(d));
    }
    Ok(ScipIndex { documents })
}

/// Copies a `scip::types::Document`: language, relative path, occurrences (symbol, range,
/// roles) and symbols.
#[verifier::external_body]
fn convert_document(d: &scip::types::Document) -> (r: ScipDocument) {
    let mut occurrences = Vec::new();
    for o in &d.occurrences {
        occurrences.push(ScipOccurrence { symbol: o.symbol.clone(), range: o.range.clone(), symbol_roles: o.symbol_roles });
    }
    let mut symbols = Vec::new();
    for si in &d.symbols {
        symbols.push(convert_symbol(si));
    }
    ScipDocument { language: d.language.clone(), relative_path: d.relative_path.clone(), occurrences, symbols }
}

/// Copies a `scip::types::SymbolInformation`: symbol, kind number and relationships.
#[verifier::external_body]
fn convert_symbol(si: &scip::types::SymbolInformation) -> (r: ScipSymbol) {
    let mut relationships = Vec::new();
    for rel in &si.relationships {
        relationships.push(ScipRelationship { symbol: rel.symbol.clone(), is_reference: rel.is_reference, is_type_definition: rel.is_type_definition });
    }
    ScipSymbol { symbol: si.symbol.clone(), kind: si.kind.value(), relationships }
}

/// A symbol local to one document: it starts with `local `.
pub open spec fn is_local(sym: Seq<char>) -> bool {
    starts_with(sym, "local "@)
}

/// Whether a symbol is local to one document (as `scip::symbol::is_local_symbol`).
pub fn is_local_symbol(sym: &str) -> (r: bool)
    ensures
        r == is_local(sym@),
{
    starts_with_exec(chars_of(sym).as_slice(), chars_of("local ").as_slice())
}

/// A Rust document: its language, ASCII lower-cased, starts with `rust`.
pub open spec fn is_rust(doc: ScipDocument) -> bool {
    starts_with(ascii_lower(doc.language@), "rust"@)
}

fn document_is_rust(doc: &ScipDocument) -> (r: bool)
    ensures
        r == is_rust(*doc),
{
    starts_with_exec(to_ascii_lower(&chars_of(doc.language.as_str())).as_slice(), chars_of("rust").as_slice())
}

/// Kinds of symbols whose bodies can call: function, method, trait method, static method,
/// macro, accessor, getter, setter, abstract method, constructor.
pub open spec fn is_callable_kind(kind: i32) -> bool {
    kind == 17 || kind == 26 || kind == 70 || kind == 80 || kind == 25 || kind == 72 || kind
        == 18 || kind == 45 || kind == 66 || kind == 9
}

fn callable_kind(kind: i32) -> (r: bool)
    ensures
        r == is_callable_kind(kind),
{
    kind == 17 || kind == 26 || kind == 70 || kind == 80 || kind == 25 || kind == 72 || kind == 18
        || kind == 45 || kind == 66 || kind == 9
}

/// The 1-based line of an occurrence: one more than the first number of its range,
/// negative or missing numbers read as 0.
pub open spec fn occurrence_line(o: ScipOccurrence) -> usize {
    if o.range@.len() > 0 && o.range@[0] > 0 {
        (o.range@[0] + 1) as usize
    } else {
        1
    }
}

fn occurrence_line_exec(o: &ScipOccurrence) -> (r: usize)
    ensures
        r == occurrence_line(*o),
{
    if o.range.len() > 0 && o.range[0] > 0 {
        let l: i32 = o.range[0];
        (l as usize) + 1
    } else {
        1
    }
}

/// An occurrence that defines a non-local symbol.
pub open spec fn is_anchor_occurrence(o: ScipOccurrence) -> bool {
    o.symbol@.len() != 0 && !is_local(o.symbol@) && (o.symbol_roles & 1) != 0
}

/// Definition anchors after the occurrences `os` of a document at `path`.
pub open spec fn occurrence_anchors(
    acc: Map<Seq<char>, (Seq<char>, usize)>,
    path: Seq<char>,
    os: Seq<ScipOccurrence>,
) -> Map<Seq<char>, (Seq<char>, usize)>
    decreases os.len(),
{
    if os.len() == 0 {
        acc
    } else {
        let m = occurrence_anchors(acc, path, os.drop_last());
        if is_anchor_occurrence(os.last()) {
            m.insert(os.last().symbol@, (path, occurrence_line(os.last())))
        } else {
            m
        }
    }
}

/// Definition anchors of the documents `ds`: each non-local symbol defined in a Rust
/// document maps to the POSIX path and 1-based line of its last definition.
pub open spec fn anchors_of(ds: Seq<ScipDocument>) -> Map<Seq<char>, (Seq<char>, usize)>
    decreases ds.len(),
{
    if ds.len() == 0 {
        Map::empty()
    } else {
        let m = anchors_of(ds.drop_last());
        let d = ds.last();
        if is_rust(d) {
            occurrence_anchors(m, posix(d.relative_path@), d.occurrences@)
        } else {
            m
        }
    }
}

/// Mathematical value of an anchor map.
pub open spec fn anchors_view(m: Map<Seq<char>, (String, usize)>) -> Map<Seq<char>, (Seq<char>, usize)> {
    Map::new(|k: Seq<char>| m.contains_key(k), |k: Seq<char>| (m[k].0@, m[k].1))
}

/// Where each symbol of the index is defined.
pub fn build_symbol_definition_anchors(index: &ScipIndex) -> (r: StringHashMap<(String, usize)>)
    ensures
        anchors_view(r@) == anchors_of(index.documents@),
{
    let mut map: StringHashMap<(String, usize)> = StringHashMap::new();
    let ds = &index.documents;
    let mut i: usize = 0;
    assert(anchors_view(map@) =~= Map::<Seq<char>, (Seq<char>, usize)>::empty());
    while i < ds.len()
        invariant
            i <= ds@.len(),
            anchors_view(map@) == anchors_of(ds@.take(i as int)),
        decreases ds@.len() - i,
    {
        assert(ds@.take(i + 1).drop_last() =~= ds@.take(i as int));
        assert(ds@.take(i + 1).last() == ds@[i as int]);
        let d = &ds[i];
        if document_is_rust(d) {
            let path = posix_rel(d.relative_path.as_str());
            let ghost m0 = anchors_view(map@);
            let os = &d.occurrences;
            let mut j: usize = 0;
            assert(os@.take(0) =~= Seq::<ScipOccurrence>::empty());
            while j < os.len()
                invariant
                    j <= os@.len(),
                    path@ == posix(d.relative_path@),
                    anchors_view(map@) == occurrence_anchors(m0, path@, os@.take(j as int)),
                decreases os@.len() - j,
            {
                assert(os@.take(j + 1).drop_last() =~= os@.take(j as int));
                assert(os@.take(j + 1).last() == os@[j as int]);
                let o = &os[j];
                if o.symbol.as_str().unicode_len() != 0 && !is_local_symbol(o.symbol.as_str()) && (
                o.symbol_roles & 1) != 0 {
                    let ghost before = map@;
                    let line = occurrence_line_exec(o);
                    map.insert(own(o.symbol.as_str()), (own(path.as_str()), line));
                    assert(anchors_view(map@) =~= anchors_view(before).insert(
                        o.symbol@,
                        (path@, line),
                    ));
                }
                j = j + 1;
            }
            assert(os@.take(os@.len() as int) =~= os@);
        }
        i = i + 1;
    }
    assert(ds@.take(ds@.len() as int) =~= ds@);
    map
}

/// Callable symbols of a document that have an anchor, as `(line, symbol)`, in document
/// order.
pub open spec fn callable_defs(ss: Seq<ScipSymbol>, anchors: Map<Seq<char>, (Seq<char>, usize)>) -> Seq<
    (usize, Seq<char>),
>
    decreases ss.len(),
{
    if ss.len() == 0 {
        Seq::empty()
    } else {
        let r = callable_defs(ss.drop_last(), anchors);
        let s = ss.last();
        if is_callable_kind(s.kind) && anchors.contains_key(s.symbol@) {
            r.push((anchors[s.symbol@].1, s.symbol@))
        } else {
            r
        }
    }
}

/// `sorted` with `x` inserted after every element whose line is at most `x`'s.
pub open spec fn insert_by_line(sorted: Seq<(usize, Seq<char>)>, x: (usize, Seq<char>)) -> Seq<
    (usize, Seq<char>),
>
    decreases sorted.len(),
{
    if sorted.len() == 0 || sorted.last().0 <= x.0 {
        sorted.push(x)
    } else {
        insert_by_line(sorted.drop_last(), x).push(sorted.last())
    }
}

/// `s` stably sorted by line.
pub open spec fn sort_by_line(s: Seq<(usize, Seq<char>)>) -> Seq<(usize, Seq<char>)>
    decreases s.len(),
{
    if s.len() == 0 {
        s
    } else {
        insert_by_line(sort_by_line(s.drop_last()), s.last())
    }
}

/// Lines ascend.
pub open spec fn lines_sorted(s: Seq<(usize, Seq<char>)>) -> bool {
    forall|a: int, b: int| 0 <= a <= b < s.len() ==> s[a].0 <= s[b].0
}

proof fn lemma_insert_by_line(sorted: Seq<(usize, Seq<char>)>, x: (usize, Seq<char>))
    requires
        lines_sorted(sorted),
    ensures
        lines_sorted(insert_by_line(sorted, x)),
        insert_by_line(sorted, x).len() == sorted.len() + 1,
        forall|a: int|
            0 <= a < insert_by_line(sorted, x).len() ==> (#[trigger] insert_by_line(sorted, x)[a]
                == x || sorted.contains(insert_by_line(sorted, x)[a])),
    decreases sorted.len(),
{
    if sorted.len() == 0 || sorted.last().0 <= x.0 {
    } else {
        let d = sorted.drop_last();
        lemma_insert_by_line(d, x);
        let r = insert_by_line(d, x);
        let full = r.push(sorted.last());
        assert forall|a: int| 0 <= a < full.len() implies (#[trigger] full[a] == x || sorted.contains(
            full[a],
        )) by {
            if a < r.len() {
                if r[a] != x {
                    let k = choose|k: int| 0 <= k < d.len() && d[k] == r[a];
                    assert(sorted[k] == r[a]);
                }
            } else {
                assert(sorted[sorted.len() - 1] == full[a]);
            }
        }
        assert forall|a: int, b: int| 0 <= a <= b < full.len() implies full[a].0 <= full[b].0 by {
            if b == full.len() - 1 && a < b {
                if r[a] == x {
                } else {
                    let k = choose|k: int| 0 <= k < d.len() && d[k] == r[a];
                    assert(sorted[k] == r[a]);
                }
            }
        }
    }
}

proof fn lemma_sort_by_line(s: Seq<(usize, Seq<char>)>)
    ensures
        lines_sorted(sort_by_line(s)),
        sort_by_line(s).len() == s.len(),
    decreases s.len(),
{
    if s.len() > 0 {
        lemma_sort_by_line(s.drop_last());
        lemma_insert_by_line(sort_by_line(s.drop_last()), s.last());
    }
}

/// Inserts `x` into the line-sorted `v` after every element whose line is at most `x`'s.
fn insert_sorted(v: &mut Vec<(usize, String)>, x: (usize, String))
    ensures
        defs_view(final(v)@) == insert_by_line(defs_view(old(v)@), (x.0, x.1@)),
{
    let ghost xv = (x.0, x.1@);
    let mut k: usize = v.len();
    assert(defs_view(v@).take(k as int) =~= defs_view(v@));
    assert(defs_view(v@).skip(k as int) =~= Seq::<(usize, Seq<char>)>::empty());
    // Find the insertion point from the back.
    while k > 0 && v[k - 1].0 > x.0
        invariant
            k <= v@.len(),
            xv == (x.0, x.1@),
            insert_by_line(defs_view(v@), xv) == insert_by_line(defs_view(v@).take(k as int), xv)
                + defs_view(v@).skip(k as int),
        decreases k,
    {
        let ghost t = defs_view(v@).take(k as int);
        assert(t.drop_last() =~= defs_view(v@).take(k - 1));
        assert(t.last() == defs_view(v@)[k - 1]);
        assert(defs_view(v@)[k - 1].0 == v@[k - 1].0);
        assert(t.len() > 0);
        assert(defs_view(v@).skip(k - 1) =~= seq![defs_view(v@)[k - 1]] + defs_view(v@).skip(
            k as int,
        ));
        assert(insert_by_line(t, xv) == insert_by_line(t.drop_last(), xv).push(t.last()));
        assert(insert_by_line(t, xv) + defs_view(v@).skip(k as int) =~= insert_by_line(
            defs_view(v@).take(k - 1),
            xv,
        ) + defs_view(v@).skip(k - 1));
        k = k - 1;
    }
    let ghost t = defs_view(v@).take(k as int);
    assert(insert_by_line(t, xv) == t.push(xv));
    let ghost before = defs_view(v@);
    v.insert(k, x);
    assert(defs_view(v@) =~= before.take(k as int).push(xv) + before.skip(k as int));
}

/// Mathematical value of `(line, symbol)` pairs.
pub open spec fn defs_view(v: Seq<(usize, String)>) -> Seq<(usize, Seq<char>)> {
    v.map_values(|p: (usize, String)| (p.0, p.1@))
}

/// Callable definitions of a document with an anchor, as `(line, symbol)`, sorted by line
/// (stably, so equal lines keep document order).
pub fn sorted_callable_def_lines(doc: &ScipDocument, anchors: &StringHashMap<(String, usize)>) -> (r:
    Vec<(usize, String)>)
    ensures
        defs_view(r@) == sort_by_line(callable_defs(doc.symbols@, anchors_view(anchors@))),
        lines_sorted(defs_view(r@)),
{
    let ghost av = anchors_view(anchors@);
    let ss = &doc.symbols;
    let mut r: Vec<(usize, String)> = Vec::new();
    let mut i: usize = 0;
    assert(defs_view(r@) =~= Seq::<(usize, Seq<char>)>::empty());
    while i < ss.len()
        invariant
            i <= ss@.len(),
            av == anchors_view(anchors@),
            defs_view(r@) == sort_by_line(callable_defs(ss@.take(i as int), av)),
        decreases ss@.len() - i,
    {
        assert(ss@.take(i + 1).drop_last() =~= ss@.take(i as int));
        assert(ss@.take(i + 1).last() == ss@[i as int]);
        let s = &ss[i];
        if callable_kind(s.kind) {
            match anchors.get(s.symbol.as_str()) {
                Some(a) => {
                    let line = a.1;
                    insert_sorted(&mut r, (line, own(s.symbol.as_str())));
                    let ghost c = callable_defs(ss@.take(i + 1), av);
                    assert(c == callable_defs(ss@.take(i as int), av).push((line, s.symbol@)));
                    assert(c.drop_last() =~= callable_defs(ss@.take(i as int), av));
                },
                None => {},
            }
        }
        i = i + 1;
    }
    assert(ss@.take(ss@.len() as int) =~= ss@);
    proof {
        lemma_sort_by_line(callable_defs(ss@, av));
    }
    r
}

/// Number of leading definitions whose line is at most `line`.
pub open spec fn lead(defs: Seq<(usize, Seq<char>)>, line: usize) -> nat
    decreases defs.len(),
{
    if defs.len() == 0 {
        0
    } else if defs[0].0 <= line {
        1 + lead(defs.drop_first(), line)
    } else {
        0
    }
}

/// The symbol of the nearest callable definition at or before `line` in line-sorted
/// `defs`: the last of the leading definitions at or before it.
pub open spec fn nearest_caller(defs: Seq<(usize, Seq<char>)>, line: usize) -> Option<Seq<char>> {
    if lead(defs, line) == 0 {
        None
    } else {
        Some(defs[lead(defs, line) - 1].1)
    }
}

proof fn lemma_lead_bound(defs: Seq<(usize, Seq<char>)>, line: usize)
    ensures
        lead(defs, line) <= defs.len(),
    decreases defs.len(),
{
    if defs.len() > 0 && defs[0].0 <= line {
        lemma_lead_bound(defs.drop_first(), line);
    }
}

/// The symbol of the nearest callable definition at or before `ref_line_1based` in the
/// line-sorted `defs`, if one is.
pub fn nearest_caller_symbol(sorted_callable_defs: &[(usize, String)], ref_line_1based: usize) -> (r:
    Option<&str>)
    ensures
        match r {
            None => nearest_caller(defs_view(sorted_callable_defs@), ref_line_1based) is None,
            Some(s) => nearest_caller(defs_view(sorted_callable_defs@), ref_line_1based)
                == Some(s@),
        },
{
    let ghost dv = defs_view(sorted_callable_defs@);
    let n = sorted_callable_defs.len();
    let mut i: usize = 0;
    assert(dv.skip(0) =~= dv);
    while i < n && sorted_callable_defs[i].0 <= ref_line_1based
        invariant
            n == sorted_callable_defs@.len(),
            dv == defs_view(sorted_callable_defs@),
            i <= n,
            lead(dv, ref_line_1based) == i + lead(dv.skip(i as int), ref_line_1based),
        decreases n - i,
    {
        assert(dv[i as int].0 == sorted_callable_defs@[i as int].0);
        assert(dv.skip(i as int).drop_first() =~= dv.skip(i + 1));
        assert(dv.skip(i as int)[0] == dv[i as int]);
        i = i + 1;
    }
    if i < n {
        assert(dv[i as int].0 == sorted_callable_defs@[i as int].0);
        assert(dv.skip(i as int)[0] == dv[i as int]);
    }
    assert(lead(dv, ref_line_1based) == i);
    if i == 0 {
        None
    } else {
        Some(sorted_callable_defs[i - 1].1.as_str())
    }
}

/// The primary key of the function that defines `sym`, through its anchor and the
/// registry.
pub open spec fn resolve(
    anchors: Map<Seq<char>, (Seq<char>, usize)>,
    reg: Map<(Seq<char>, usize), Seq<char>>,
    sym: Seq<char>,
) -> Option<Seq<char>> {
    if anchors.contains_key(sym) && reg.contains_key((posix(anchors[sym].0), anchors[sym].1)) {
        Some(reg[(posix(anchors[sym].0), anchors[sym].1)])
    } else {
        None
    }
}

fn resolve_exec<'a>(
    anchors: &StringHashMap<(String, usize)>,
    registry: &'a FunctionAnchorRegistry,
    sym: &str,
) -> (r: Option<&'a str>)
    ensures
        match r {
            Some(pk) => resolve(anchors_view(anchors@), registry@, sym@) == Some(pk@),
            None => resolve(anchors_view(anchors@), registry@, sym@) is None,
        },
{
    match anchors.get(sym) {
        Some(a) => registry.pk_for_path_line(a.0.as_str(), a.1),
        None => None,
    }
}

/// Call edges of one symbol's relationships from `caller` (its primary key): each
/// reference that is not a type definition, to a non-local symbol with a primary key.
pub open spec fn relationship_edges(
    caller: Seq<char>,
    rels: Seq<ScipRelationship>,
    anchors: Map<Seq<char>, (Seq<char>, usize)>,
    reg: Map<(Seq<char>, usize), Seq<char>>,
) -> Seq<(Seq<char>, Seq<char>)>
    decreases rels.len(),
{
    if rels.len() == 0 {
        Seq::empty()
    } else {
        let r = relationship_edges(caller, rels.drop_last(), anchors, reg);
        let rel = rels.last();
        if rel.is_reference && !rel.is_type_definition && rel.symbol@.len() != 0 && !is_local(
            rel.symbol@,
        ) && resolve(anchors, reg, rel.symbol@) is Some {
            r.push((caller, resolve(anchors, reg, rel.symbol@)->Some_0))
        } else {
            r
        }
    }
}

/// Call edges from the relationships of the callable symbols `ss` that have a primary key.
pub open spec fn symbol_edges(
    ss: Seq<ScipSymbol>,
    anchors: Map<Seq<char>, (Seq<char>, usize)>,
    reg: Map<(Seq<char>, usize), Seq<char>>,
) -> Seq<(Seq<char>, Seq<char>)>
    decreases ss.len(),
{
    if ss.len() == 0 {
        Seq::empty()
    } else {
        let r = symbol_edges(ss.drop_last(), anchors, reg);
        let s = ss.last();
        if is_callable_kind(s.kind) && resolve(anchors, reg, s.symbol@) is Some {
            r + relationship_edges(
                resolve(anchors, reg, s.symbol@)->Some_0,
                s.relationships@,
                anchors,
                reg,
            )
        } else {
            r
        }
    }
}

/// Call edges inferred from the non-definition occurrences `os` of non-local symbols:
/// from the nearest callable definition at or before the occurrence (when it is another
/// symbol) to the occurring symbol, when both have a primary key.
pub open spec fn occurrence_edges(
    defs: Seq<(usize, Seq<char>)>,
    os: Seq<ScipOccurrence>,
    anchors: Map<Seq<char>, (Seq<char>, usize)>,
    reg: Map<(Seq<char>, usize), Seq<char>>,
) -> Seq<(Seq<char>, Seq<char>)>
    decreases os.len(),
{
    if os.len() == 0 {
        Seq::empty()
    } else {
        let r = occurrence_edges(defs, os.drop_last(), anchors, reg);
        let o = os.last();
        let caller = nearest_caller(defs, occurrence_line(o));
        if o.symbol@.len() != 0 && !is_local(o.symbol@) && (o.symbol_roles & 1) == 0
            && caller is Some && caller->Some_0 != o.symbol@ && resolve(
            anchors,
            reg,
            caller->Some_0,
        ) is Some && resolve(anchors, reg, o.symbol@) is Some {
            r.push(
                (
                    resolve(anchors, reg, caller->Some_0)->Some_0,
                    resolve(anchors, reg, o.symbol@)->Some_0,
                ),
            )
        } else {
            r
        }
    }
}

/// Call edges of one document: from its relationships, then from its occurrences; none
/// for a document that is not Rust.
pub open spec fn document_edges(
    d: ScipDocument,
    anchors: Map<Seq<char>, (Seq<char>, usize)>,
    reg: Map<(Seq<char>, usize), Seq<char>>,
) -> Seq<(Seq<char>, Seq<char>)> {
    if !is_rust(d) {
        Seq::empty()
    } else {
        let defs = sort_by_line(callable_defs(d.symbols@, anchors));
        symbol_edges(d.symbols@, anchors, reg) + if defs.len() == 0 {
            Seq::empty()
        } else {
            occurrence_edges(defs, d.occurrences@, anchors, reg)
        }
    }
}

/// Call edges of the documents `ds`, in order.
pub open spec fn index_edges(
    ds: Seq<ScipDocument>,
    anchors: Map<Seq<char>, (Seq<char>, usize)>,
    reg: Map<(Seq<char>, usize), Seq<char>>,
) -> Seq<(Seq<char>, Seq<char>)>
    decreases ds.len(),
{
    if ds.len() == 0 {
        Seq::empty()
    } else {
        index_edges(ds.drop_last(), anchors, reg) + document_edges(ds.last(), anchors, reg)
    }
}

/// Mathematical value of primary-key pairs.
pub open spec fn pairs_view(v: Seq<(String, String)>) -> Seq<(Seq<char>, Seq<char>)> {
    v.map_values(|p: (String, String)| (p.0@, p.1@))
}

fn push_pair(out: &mut Vec<(String, String)>, a: &str, b: &str)
    ensures
        pairs_view(final(out)@) == pairs_view(old(out)@).push((a@, b@)),
{
    out.push((own(a), own(b)));
    assert(pairs_view(out@) =~= pairs_view(old(out)@).push((a@, b@)));
}

fn relationship_edges_exec(
    caller: &str,
    rels: &Vec<ScipRelationship>,
    anchors: &StringHashMap<(String, usize)>,
    registry: &FunctionAnchorRegistry,
    out: &mut Vec<(String, String)>,
)
    ensures
        pairs_view(final(out)@) == pairs_view(old(out)@) + relationship_edges(
            caller@,
            rels@,
            anchors_view(anchors@),
            registry@,
        ),
{
    let ghost start = pairs_view(out@);
    let mut i: usize = 0;
    assert(rels@.take(0) =~= Seq::<ScipRelationship>::empty());
    while i < rels.len()
        invariant
            i <= rels@.len(),
            pairs_view(out@) == start + relationship_edges(
                caller@,
                rels@.take(i as int),
                anchors_view(anchors@),
                registry@,
            ),
        decreases rels@.len() - i,
    {
        assert(rels@.take(i + 1).drop_last() =~= rels@.take(i as int));
        assert(rels@.take(i + 1).last() == rels@[i as int]);
        let rel = &rels[i];
        if rel.is_reference && !rel.is_type_definition && rel.symbol.as_str().unicode_len() != 0
            && !is_local_symbol(rel.symbol.as_str()) {
            match resolve_exec(anchors, registry, rel.symbol.as_str()) {
                Some(callee) => {
                    let ghost before = pairs_view(out@);
                    push_pair(out, caller, callee);
                    assert(pairs_view(out@) =~= start + relationship_edges(
                        caller@,
                        rels@.take(i + 1),
                        anchors_view(anchors@),
                        registry@,
                    ));
                },
                None => {},
            }
        }
        i = i + 1;
    }
    assert(rels@.take(rels@.len() as int) =~= rels@);
}

fn symbol_edges_exec(
    ss: &Vec<ScipSymbol>,
    anchors: &StringHashMap<(String, usize)>,
    registry: &FunctionAnchorRegistry,
    out: &mut Vec<(String, String)>,
)
    ensures
        pairs_view(final(out)@) == pairs_view(old(out)@) + symbol_edges(
            ss@,
            anchors_view(anchors@),
            registry@,
        ),
{
    let ghost start = pairs_view(out@);
    let mut i: usize = 0;
    assert(ss@.take(0) =~= Seq::<ScipSymbol>::empty());
    assert(start + Seq::<(Seq<char>, Seq<char>)>::empty() =~= start);
    while i < ss.len()
        invariant
            i <= ss@.len(),
            pairs_view(out@) == start + symbol_edges(
                ss@.take(i as int),
                anchors_view(anchors@),
                registry@,
            ),
        decreases ss@.len() - i,
    {
        assert(ss@.take(i + 1).drop_last() =~= ss@.take(i as int));
        assert(ss@.take(i + 1).last() == ss@[i as int]);
        let s = &ss[i];
        if callable_kind(s.kind) {
            match resolve_exec(anchors, registry, s.symbol.as_str()) {
                Some(caller) => {
                    let ghost before = pairs_view(out@);
                    relationship_edges_exec(caller, &s.relationships, anchors, registry, out);
                    assert(pairs_view(out@) =~= start + symbol_edges(
                        ss@.take(i + 1),
                        anchors_view(anchors@),
                        registry@,
                    ));
                },
                None => {},
            }
        }
        i = i + 1;
    }
    assert(ss@.take(ss@.len() as int) =~= ss@);
}

fn occurrence_edges_exec(
    defs: &Vec<(usize, String)>,
    os: &Vec<ScipOccurrence>,
    anchors: &StringHashMap<(String, usize)>,
    registry: &FunctionAnchorRegistry,
    out: &mut Vec<(String, String)>,
)
    ensures
        pairs_view(final(out)@) == pairs_view(old(out)@) + occurrence_edges(
            defs_view(defs@),
            os@,
            anchors_view(anchors@),
            registry@,
        ),
{
    let ghost start = pairs_view(out@);
    let mut i: usize = 0;
    assert(os@.take(0) =~= Seq::<ScipOccurrence>::empty());
    assert(start + Seq::<(Seq<char>, Seq<char>)>::empty() =~= start);
    while i < os.len()
        invariant
            i <= os@.len(),
            pairs_view(out@) == start + occurrence_edges(
                defs_view(defs@),
                os@.take(i as int),
                anchors_view(anchors@),
                registry@,
            ),
        decreases os@.len() - i,
    {
        assert(os@.take(i + 1).drop_last() =~= os@.take(i as int));
        assert(os@.take(i + 1).last() == os@[i as int]);
        let o = &os[i];
        if o.symbol.as_str().unicode_len() != 0 && !is_local_symbol(o.symbol.as_str()) && (
        o.symbol_roles & 1) == 0 {
            let line = occurrence_line_exec(o);
            match nearest_caller_symbol(defs.as_slice(), line) {
                Some(caller) => {
                    if !crate::text::str_eq(caller, o.symbol.as_str()) {
                        match (
                            resolve_exec(anchors, registry, caller),
                            resolve_exec(anchors, registry, o.symbol.as_str()),
                        ) {
                            (Some(cp), Some(ep)) => {
                                push_pair(out, cp, ep);
                                assert(pairs_view(out@) =~= start + occurrence_edges(
                                    defs_view(defs@),
                                    os@.take(i + 1),
                                    anchors_view(anchors@),
                                    registry@,
                                ));
                            },
                            _ => {},
                        }
                    }
                },
                None => {},
            }
        }
        i = i + 1;
    }
    assert(os@.take(os@.len() as int) =~= os@);
}

/// The call edges of an index as primary-key pairs `(caller, callee)`, in the order the
/// documents, symbols and occurrences come, and the number of definition anchors.
pub fn scip_call_edges(index: &ScipIndex, registry: &FunctionAnchorRegistry) -> (r: (
    Vec<(String, String)>,
    usize,
))
    ensures
        pairs_view(r.0@) == index_edges(
            index.documents@,
            anchors_of(index.documents@),
            registry@,
        ),
        r.1 == anchors_of(index.documents@).len(),
{
    let anchors = build_symbol_definition_anchors(index);
    let ghost av = anchors_view(anchors@);
    let mut out: Vec<(String, String)> = Vec::new();
    let ds = &index.documents;
    let mut i: usize = 0;
    assert(ds@.take(0) =~= Seq::<ScipDocument>::empty());
    assert(pairs_view(out@) =~= Seq::<(Seq<char>, Seq<char>)>::empty());
    while i < ds.len()
        invariant
            i <= ds@.len(),
            av == anchors_view(anchors@),
            pairs_view(out@) == index_edges(ds@.take(i as int), av, registry@),
        decreases ds@.len() - i,
    {
        assert(ds@.take(i + 1).drop_last() =~= ds@.take(i as int));
        assert(ds@.take(i + 1).last() == ds@[i as int]);
        let d = &ds[i];
        let ghost before = pairs_view(out@);
        if document_is_rust(d) {
            symbol_edges_exec(&d.symbols, &anchors, registry, &mut out);
            let defs = sorted_callable_def_lines(d, &anchors);
            if defs.len() != 0 {
                occurrence_edges_exec(&defs, &d.occurrences, &anchors, registry, &mut out);
            }
            assert(pairs_view(out@) =~= before + document_edges(*d, av, registry@));
        } else {
            assert(pairs_view(out@) =~= before + document_edges(*d, av, registry@));
        }
        i = i + 1;
    }
    assert(ds@.take(ds@.len() as int) =~= ds@);
    assert(av.dom() =~= anchors@.dom());
    (out, anchors.len())
}

/// The `CALLS` pairs of the SCIP index in the bytes read from `scip_path`, with the number
/// of definition anchors it holds; bytes that do not decode give an error naming the path.
pub fn calls_from_scip(scip_path: &str, bytes: &[u8], registry: &FunctionAnchorRegistry) -> (r: Result<
    (Vec<(String, String)>, usize),
    String,
>)
    ensures
        match scip_index_of(bytes@) {
            Some(index) => r matches Ok(p) && pairs_view(p.0@) == index_edges(
                index.documents@,
                anchors_of(index.documents@),
                registry@,
            ) && p.1 == anchors_of(index.documents@).len(),
            None => r matches Err(m) && starts_with(m@, "parse SCIP "@ + scip_path@ + ": "@),
        },
{
    match parse_scip_index(bytes) {
        Ok(index) => Ok(scip_call_edges(&index, registry)),
        Err(e) => {
            let mut m = cat3("parse SCIP ", scip_path, ": ");
            let ghost prefix = m@;
            m.append(e.as_str());
            assert(m@.subrange(0, prefix.len() as int) =~= prefix);
            Err(m)
        },
    }
}

} // verus!
