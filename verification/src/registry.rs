//! The map from `(POSIX path, 1-based line)` to the primary key of the function defined
//! there, filled while a repository is chunked and read when call edges are resolved.
use vstd::prelude::*;

use crate::code::{posix, posix_rel};

verus! {

struct AnchorEntry {
    path: String,
    line: usize,
    pk: String,
}

spec fn entry_key(e: AnchorEntry) -> (Seq<char>, usize) {
    (e.path@, e.line)
}

/// Function primary keys by `(POSIX path, line)`.
pub struct FunctionAnchorRegistry {
    entries: Vec<AnchorEntry>,
}

impl FunctionAnchorRegistry {
    spec fn keys(&self) -> Seq<(Seq<char>, usize)> {
        self.entries@.map_values(|e: AnchorEntry| entry_key(e))
    }

    #[verifier::type_invariant]
    spec fn keys_unique(&self) -> bool {
        self.keys().no_duplicates()
    }

    spec fn slot(&self, k: (Seq<char>, usize)) -> int {
        choose|i: int| 0 <= i < self.entries@.len() && entry_key(#[trigger] self.entries@[i]) == k
    }
}

impl View for FunctionAnchorRegistry {
    type V = Map<(Seq<char>, usize), Seq<char>>;

    closed spec fn view(&self) -> Map<(Seq<char>, usize), Seq<char>> {
        Map::new(
            |k: (Seq<char>, usize)| self.keys().contains(k),
            |k: (Seq<char>, usize)| self.entries@[self.slot(k)].pk@,
        )
    }
}

impl FunctionAnchorRegistry {
    /// An empty registry.
    pub fn new() -> (r: FunctionAnchorRegistry)
        ensures
            r@ == Map::<(Seq<char>, usize), Seq<char>>::empty(),
    {
        let r = FunctionAnchorRegistry { entries: Vec::new() };
        assert(r@ =~= Map::<(Seq<char>, usize), Seq<char>>::empty());
        r
    }

    fn find(&self, path: &str, line: usize) -> (r: Option<usize>)
        ensures
            match r {
                Some(i) => i < self.entries@.len() && entry_key(self.entries@[i as int]) == (
                    path@,
                    line,
                ),
                None => !self.keys().contains((path@, line)),
            },
    {
        let mut i: usize = 0;
        while i < self.entries.len()
            invariant
                i <= self.entries@.len(),
                forall|k: int| 0 <= k < i ==> entry_key(#[trigger] self.entries@[k]) != (path@, line),
            decreases self.entries@.len() - i,
        {
            if self.entries[i].line == line && crate::text::str_eq(
                self.entries[i].path.as_str(),
                path,
            ) {
                return Some(i);
            }
            i = i + 1;
        }
        proof {
            if self.keys().contains((path@, line)) {
                let k = choose|k: int| 0 <= k < self.keys().len() && self.keys()[k] == (path@, line);
                assert(entry_key(self.entries@[k]) == (path@, line));
            }
        }
        None
    }

    /// Records the primary key of the function whose name is on `name_line_1based` of
    /// `rel_path_posix` (`\` read as `/`), replacing any key recorded there before.
    pub fn record_function_anchor(
        &mut self,
        rel_path_posix: &str,
        name_line_1based: usize,
        function_pk: String,
    )
        ensures
            final(self)@ == old(self)@.insert(
                (posix(rel_path_posix@), name_line_1based),
                function_pk@,
            ),
    {
        proof {
            use_type_invariant(&*self);
        }
        let path = posix_rel(rel_path_posix);
        let ghost k = (path@, name_line_1based);
        match self.find(path.as_str(), name_line_1based) {
            Some(i) => {
                let ghost before = *self;
                let mut entries = Vec::new();
                std::mem::swap(&mut entries, &mut self.entries);
                entries.set(i, AnchorEntry { path, line: name_line_1based, pk: function_pk });
                assert(entries@.map_values(|e: AnchorEntry| entry_key(e)) =~= before.keys());
                assert(entries@.map_values(|e: AnchorEntry| entry_key(e)).no_duplicates());
                self.entries = entries;
                proof {
                    assert(self.keys() =~= before.keys());
                    assert forall|q: (Seq<char>, usize)| self.keys().contains(q) implies self.entries@[self.slot(q)].pk@ == (if q == k {
                        function_pk@
                    } else {
                        before.entries@[before.slot(q)].pk@
                    }) by {
                        let j = choose|j: int| 0 <= j < self.keys().len() && self.keys()[j] == q;
                        assert(entry_key(self.entries@[j]) == q);
                        assert(before.keys()[j] == q);
                        assert(entry_key(before.entries@[j]) == q);
                        let s = self.slot(q);
                        assert(self.keys()[s] == q);
                        let t = before.slot(q);
                        assert(before.keys()[t] == q);
                        assert(s == j);
                        assert(t == j);
                        if q != k {
                            assert(s != i);
                            assert(self.entries@[s] == before.entries@[s]);
                        } else {
                            assert(before.keys()[i as int] == k);
                            assert(s == i);
                        }
                    }
                    assert(before.keys()[i as int] == k);
                    assert(self@.dom() =~= before@.insert(k, function_pk@).dom());
                    assert forall|q: (Seq<char>, usize)| #[trigger] self@.contains_key(q) implies self@[q]
                        == before@.insert(k, function_pk@)[q] by {}
                    assert(self@ =~= before@.insert(k, function_pk@));
                }
            },
            None => {
                let ghost before = *self;
                let mut entries = Vec::new();
                std::mem::swap(&mut entries, &mut self.entries);
                entries.push(AnchorEntry { path, line: name_line_1based, pk: function_pk });
                assert(entries@.map_values(|e: AnchorEntry| entry_key(e)) =~= before.keys().push(k));
                assert(entries@.map_values(|e: AnchorEntry| entry_key(e)).no_duplicates()) by {
                    let ks = entries@.map_values(|e: AnchorEntry| entry_key(e));
                    assert forall|a: int, b: int| 0 <= a < ks.len() && 0 <= b < ks.len() && a != b implies ks[a] != ks[b] by {
                        if a == ks.len() - 1 {
                            assert(before.keys()[b] == ks[b]);
                        } else if b == ks.len() - 1 {
                            assert(before.keys()[a] == ks[a]);
                        } else {
                            assert(before.keys()[a] == ks[a]);
                            assert(before.keys()[b] == ks[b]);
                        }
                    }
                }
                self.entries = entries;
                proof {
                    assert(self.keys() =~= before.keys().push(k));
                    assert forall|q: (Seq<char>, usize)| self.keys().contains(q) implies self.entries@[self.slot(q)].pk@ == (if q == k {
                        function_pk@
                    } else {
                        before.entries@[before.slot(q)].pk@
                    }) by {
                        let s = self.slot(q);
                        let j = choose|j: int| 0 <= j < self.keys().len() && self.keys()[j] == q;
                        assert(entry_key(self.entries@[j]) == q);
                        assert(self.keys()[s] == q);
                        if q != k {
                            let t = before.slot(q);
                            assert(before.keys().contains(q)) by {
                                assert(before.keys()[j] == q);
                            }
                            assert(before.keys()[t] == q);
                            assert(self.keys()[t] == q);
                        }
                    }
                    assert forall|q: (Seq<char>, usize)| self.keys().contains(q) <==> (before.keys().contains(q) || q == k) by {
                        if self.keys().contains(q) {
                            let j = choose|j: int| 0 <= j < self.keys().len() && self.keys()[j] == q;
                            if j < before.keys().len() {
                                assert(before.keys()[j] == q);
                            }
                        }
                        if before.keys().contains(q) {
                            let j = choose|j: int| 0 <= j < before.keys().len() && before.keys()[j] == q;
                            assert(self.keys()[j] == q);
                        }
                        if q == k {
                            assert(self.keys()[self.keys().len() - 1] == k);
                        }
                    }
                    assert(self@.dom() =~= before@.insert(k, function_pk@).dom());
                    assert forall|q: (Seq<char>, usize)| #[trigger] self@.contains_key(q) implies self@[q]
                        == before@.insert(k, function_pk@)[q] by {}
                    assert(self@ =~= before@.insert(k, function_pk@));
                }
            },
        }
    }

    /// The primary key recorded for line `name_line_1based` of `rel_path_posix` (`\` read
    /// as `/`), if any.
    pub fn pk_for_path_line(&self, rel_path_posix: &str, name_line_1based: usize) -> (r: Option<
        &str,
    >)
        ensures
            match r {
                Some(pk) => self@.contains_key((posix(rel_path_posix@), name_line_1based))
                    && pk@ == self@[(posix(rel_path_posix@), name_line_1based)],
                None => !self@.contains_key((posix(rel_path_posix@), name_line_1based)),
            },
    {
        proof {
            use_type_invariant(self);
        }
        let path = posix_rel(rel_path_posix);
        match self.find(path.as_str(), name_line_1based) {
            Some(i) => {
                proof {
                    let k = (path@, name_line_1based);
                    assert(self.keys()[i as int] == k);
                    let s = self.slot(k);
                    assert(self.keys()[s] == k);
                }
                Some(self.entries[i].pk.as_str())
            },
            None => None,
        }
    }

    /// How many `(path, line)` anchors are recorded.
    pub fn len(&self) -> (r: usize)
        ensures
            r == self@.len(),
    {
        proof {
            use_type_invariant(self);
            self.keys().unique_seq_to_set();
            assert(self@.dom() =~= self.keys().to_set());
        }
        self.entries.len()
    }
}

/// An anchor recorded for a line of a path is found again for that line of any path
/// that reads the same once `\` is taken as `/` (the recorded path itself among them),
/// and recording it leaves the anchors of every other path and line as they were.
pub proof fn lemma_anchor_read_after_record(
    anchors: Map<(Seq<char>, usize), Seq<char>>,
    recorded_path: Seq<char>,
    lookup_path: Seq<char>,
    line: usize,
    pk: Seq<char>,
)
    requires
        posix(lookup_path) == posix(recorded_path),
    ensures
        anchors.insert((posix(recorded_path), line), pk).contains_key((posix(lookup_path), line)),
        anchors.insert((posix(recorded_path), line), pk)[(posix(lookup_path), line)] == pk,
        anchors.insert((posix(recorded_path), line), pk).contains_key((posix(posix(recorded_path)), line)),
        forall|k: (Seq<char>, usize)| k != (posix(recorded_path), line) ==> (
            #[trigger] anchors.insert((posix(recorded_path), line), pk).contains_key(k)
                == anchors.contains_key(k)),
{
    crate::code::lemma_posix_idempotent(recorded_path);
}

} // verus!
