//! Path helpers of the repository indexer: POSIX forms of paths, joining a repository
//! root with a relative path, the places a SCIP index is looked for, the path of a file
//! relative to the repository root, and the short name of a qualified name.
use vstd::prelude::*;

use crate::code::{posix, posix_rel};
use crate::model::{cat3, own, strs_view};
use crate::text::{chars_of, occurs_at_exec, string_of, sub_vec};
use crate::vault::{join, join_path, rfind, rfind_to};

verus! {

/// A path with `\` turned into `/`.
pub fn posix_path(s: &str) -> (r: String)
    ensures
        r@ == posix(s@),
{
    posix_rel(s)
}

/// A path for display, with `\` turned into `/`.
pub fn posix_path_display(p: &str) -> (r: String)
    ensures
        r@ == posix(p@),
{
    posix_rel(p)
}

/// The non-empty `/`-separated segments of `s`, in order.
pub open spec fn segments(s: Seq<char>) -> Seq<Seq<char>>
    decreases s.len(),
{
    segments_from(s, Seq::empty())
}

/// The non-empty segments of `s`, the current unfinished segment being `cur`.
pub open spec fn segments_from(s: Seq<char>, cur: Seq<char>) -> Seq<Seq<char>>
    decreases s.len(),
{
    if s.len() == 0 {
        if cur.len() == 0 {
            Seq::empty()
        } else {
            seq![cur]
        }
    } else if s[0] == '/' {
        (if cur.len() == 0 {
            Seq::empty()
        } else {
            seq![cur]
        }) + segments_from(s.drop_first(), Seq::empty())
    } else {
        segments_from(s.drop_first(), cur.push(s[0]))
    }
}

/// `base` with the segments `segs` pushed one by one.
pub open spec fn push_all(base: Seq<char>, segs: Seq<Seq<char>>) -> Seq<char>
    decreases segs.len(),
{
    if segs.len() == 0 {
        base
    } else {
        push_all(join_path(base, segs[0]), segs.drop_first())
    }
}

/// The repository root with the segments of a POSIX relative path pushed onto it, empty
/// segments skipped.
pub fn join_rel_paths(repo_root_path: &str, rel_posix: &str) -> (r: String)
    ensures
        r@ == push_all(repo_root_path@, segments(rel_posix@)),
{
    let v = chars_of(rel_posix);
    let mut p = own(repo_root_path);
    let mut cur: Vec<char> = Vec::new();
    let mut i: usize = 0;
    assert(v@.skip(0) =~= v@);
    while i < v.len()
        invariant
            i <= v@.len(),
            v@ == rel_posix@,
            push_all(repo_root_path@, segments(rel_posix@)) == push_all(
                p@,
                segments_from(v@.skip(i as int), cur@),
            ),
        decreases v@.len() - i,
    {
        let c = v[i];
        let ghost rest = v@.skip(i as int);
        assert(rest[0] == c);
        assert(rest.drop_first() =~= v@.skip(i + 1));
        if c == '/' {
            if cur.len() != 0 {
                let seg = string_of(&cur);
                let ghost before = p@;
                p = join(p.as_str(), seg.as_str());
                assert(seq![cur@] + segments_from(v@.skip(i + 1), Seq::empty()) =~= seq![cur@].add(
                    segments_from(v@.skip(i + 1), Seq::empty()),
                ));
                assert((seq![cur@] + segments_from(v@.skip(i + 1), Seq::empty()))[0] == cur@);
                assert((seq![cur@] + segments_from(v@.skip(i + 1), Seq::empty())).drop_first()
                    =~= segments_from(v@.skip(i + 1), Seq::empty()));
            } else {
                assert(Seq::<Seq<char>>::empty() + segments_from(v@.skip(i + 1), Seq::empty())
                    =~= segments_from(v@.skip(i + 1), Seq::empty()));
            }
            cur = Vec::new();
            assert(cur@ =~= Seq::<char>::empty());
        } else {
            cur.push(c);
        }
        i = i + 1;
    }
    assert(v@.skip(i as int) =~= Seq::<char>::empty());
    if cur.len() != 0 {
        let seg = string_of(&cur);
        let ghost p0 = p@;
        assert(segments_from(Seq::<char>::empty(), cur@) == seq![cur@]);
        assert(seq![cur@].drop_first() =~= Seq::<Seq<char>>::empty());
        assert(push_all(p0, seq![cur@]) == push_all(join_path(p0, cur@), Seq::<Seq<char>>::empty()));
        p = join(p.as_str(), seg.as_str());
    } else {
        assert(segments_from(Seq::<char>::empty(), cur@) == Seq::<Seq<char>>::empty());
    }
    p
}

/// The places a SCIP index is looked for, in order: the explicit path if one is given,
/// then `index.scip`, `target/index.scip` and `.scip/index.scip` under the repository
/// root. The first that is a file is used.
pub fn scip_index_candidates(repo_root: &str, explicit: Option<&str>) -> (r: Vec<String>)
    ensures
        strs_view(r@) == (match explicit {
            Some(e) => seq![e@],
            None => Seq::<Seq<char>>::empty(),
        }) + seq![
            join_path(repo_root@, "index.scip"@),
            join_path(join_path(repo_root@, "target"@), "index.scip"@),
            join_path(join_path(repo_root@, ".scip"@), "index.scip"@),
        ],
{
    let mut r: Vec<String> = Vec::new();
    match explicit {
        Some(e) => r.push(own(e)),
        None => {},
    }
    r.push(join(repo_root, "index.scip"));
    r.push(join(join(repo_root, "target").as_str(), "index.scip"));
    r.push(join(join(repo_root, ".scip").as_str(), "index.scip"));
    let ghost want = (match explicit {
        Some(e) => seq![e@],
        None => Seq::<Seq<char>>::empty(),
    }) + seq![
        join_path(repo_root@, "index.scip"@),
        join_path(join_path(repo_root@, "target"@), "index.scip"@),
        join_path(join_path(repo_root@, ".scip"@), "index.scip"@),
    ];
    assert(strs_view(r@) =~= want);
    r
}

/// What remains of the path `file` after the leading components of `root`, as
/// `Path::strip_prefix` computes it, when `root` is a prefix of it.
pub uninterp spec fn path_after_prefix(file: Seq<char>, root: Seq<char>) -> Option<Seq<char>>;

/// `std::path::Path::strip_prefix` of `abs_file` by `repo_root`, the remainder as text
/// (`to_string_lossy`, lossless for paths made from `&str`). Which components match is
/// left to std and named, not restated.
#[verifier::external_body]
fn strip_path_prefix(abs_file: &str, repo_root: &str) -> (r: Option<String>)
    ensures
        match r {
            Some(rest) => path_after_prefix(abs_file@, repo_root@) == Some(rest@),
            None => path_after_prefix(abs_file@, repo_root@) is None,
        },
{
    std::path::Path::new(abs_file).strip_prefix(repo_root).ok().map(|p| p.to_string_lossy().to_string())
}

/// The POSIX path of a file relative to the repository root, or an error naming both when
/// the file is not under the root.
pub fn rel_path_posix(repo_root: &str, abs_file: &str) -> (r: Result<String, String>)
    ensures
        match path_after_prefix(abs_file@, repo_root@) {
            Some(rest) => r == Ok::<String, String>(r->Ok_0) && r->Ok_0@ == posix(rest),
            None => r == Err::<String, String>(r->Err_0) && r->Err_0@ == "file "@ + abs_file@
                + " not under repo root "@ + repo_root@,
        },
{
    match strip_path_prefix(abs_file, repo_root) {
        Some(rest) => Ok(posix_rel(rest.as_str())),
        None => {
            let mut e = cat3("file ", abs_file, " not under repo root ");
            e.append(repo_root);
            Err(e)
        },
    }
}

/// The last part of a qualified name, after its last `::` (the whole name when it has
/// none).
pub open spec fn short_tail(q: Seq<char>) -> Seq<char> {
    match rfind(q, "::"@) {
        Some(k) => q.skip(k + 2),
        None => q,
    }
}

/// The last part of a qualified name, after its last `::`.
pub fn short_tail_name(q: &str) -> (r: String)
    ensures
        r@ == short_tail(q@),
{
    let v = chars_of(q);
    let sep = chars_of("::");
    proof {
        reveal_strlit("::");
    }
    assert(sep@ =~= seq![':', ':']);
    let n = v.len();
    if n < 2 {
        proof {
            crate::vault::lemma_rfind_to(v@, sep@, v@.len() - 2);
        }
        return own(q);
    }
    let mut i: usize = n - 2;
    loop
        invariant
            n == v@.len(),
            i + 2 <= n,
            v@ == q@,
            sep@ == "::"@,
            rfind(v@, sep@) == rfind_to(v@, sep@, i as int),
        decreases i,
    {
        if occurs_at_exec(&v, &sep, i) {
            let tail = sub_vec(&v, i + 2, n);
            assert(tail@ =~= v@.skip(i + 2));
            return string_of(&tail);
        }
        if i == 0 {
            assert(rfind_to(v@, sep@, -1) is None);
            return own(q);
        }
        i = i - 1;
    }
}

} // verus!
