//! The embedding requests of the repository indexer: the options of a request, the
//! headers and JSON body sent to the Jina embeddings endpoint, the error an unsuccessful
//! answer turns into, and the order in which the answer's vectors are taken.
use vstd::prelude::*;

use crate::code_writes::{json_document_text, json_object, list_members, text_members};
use crate::codegraph::first_chars;
use crate::model::{cat, cat3, clone_strs, own, strs_view};
use crate::text::{chars_of, decimal, fmt_usize, replace_char, replace_char_exec, string_of, sub_vec};

verus! {

/// Where embedding requests are sent.
pub fn default_endpoint() -> (r: &'static str)
    ensures
        r@ == "https://api.jina.ai/v1/embeddings"@,
{
    "https://api.jina.ai/v1/embeddings"
}

/// The options of an embedding request.
#[derive(Debug, Clone)]
pub struct JinaEmbedOpts {
    pub api_key: String,
    pub model: String,
    pub task: String,
    /// Width of the dense vectors asked for.
    pub dimensions: u32,
    /// Let the service cut passages that are too long.
    pub truncate: bool,
    pub late_chunking: bool,
    pub normalized: bool,
    pub return_multivector: bool,
}

impl Default for JinaEmbedOpts {
    /// No API key, model `jina-embeddings-v4`, task `code.passage`, 2048 dimensions,
    /// truncation on, no late chunking, normalized dense vectors.
    fn default() -> (r: Self)
        ensures
            r.api_key@ == Seq::<char>::empty(),
            r.model@ == "jina-embeddings-v4"@,
            r.task@ == "code.passage"@,
            r.dimensions == 2048,
            r.truncate,
            !r.late_chunking,
            r.normalized,
            !r.return_multivector,
    {
        JinaEmbedOpts {
            api_key: String::new(),
            model: own("jina-embeddings-v4"),
            task: own("code.passage"),
            dimensions: 2048,
            truncate: true,
            late_chunking: false,
            normalized: true,
            return_multivector: false,
        }
    }
}

/// The JSON body of a request embedding `passages`.
pub open spec fn request_body(passages: Seq<Seq<char>>, o: JinaEmbedOpts) -> Seq<char> {
    json_document_text(
        seq![("model"@, o.model@), ("task"@, o.task@)],
        seq![("input"@, passages)],
        seq![("dimensions"@, o.dimensions as u64)],
        seq![
            ("truncate"@, o.truncate),
            ("late_chunking"@, o.late_chunking),
            ("normalized"@, o.normalized),
            ("return_multivector"@, o.return_multivector),
        ],
    )
}

/// The headers of a request made with `api_key`.
pub open spec fn request_headers(api_key: Seq<char>) -> Seq<(Seq<char>, Seq<char>)> {
    seq![
        ("Accept"@, "application/json"@),
        ("Content-Type"@, "application/json"@),
        ("Authorization"@, "Bearer "@ + api_key),
    ]
}

/// The request embedding `passages`: its headers and JSON body. No passages need no
/// request; a request without an API key is refused.
pub fn embed_request(passages: &Vec<String>, opts: &JinaEmbedOpts) -> (r: Result<
    Option<(Vec<(String, String)>, String)>,
    String,
>)
    ensures
        passages@.len() == 0 ==> r matches Ok(None),
        passages@.len() > 0 && opts.api_key@.len() == 0 ==> (r matches Err(e) && e@
            == "JINA_API_KEY is empty; set env JINA_API_KEY or pass via CLI --jina-api-key"@),
        passages@.len() > 0 && opts.api_key@.len() > 0 ==> (r matches Ok(Some((h, b))) && text_members(h@)
            == request_headers(opts.api_key@) && b@ == request_body(
            passages@.map_values(|p: String| p@),
            *opts,
        )),
{
    if passages.len() == 0 {
        return Ok(None);
    }
    if chars_of(opts.api_key.as_str()).len() == 0 {
        return Err(own("JINA_API_KEY is empty; set env JINA_API_KEY or pass via CLI --jina-api-key"));
    }
    let headers = vec![
        (own("Accept"), own("application/json")),
        (own("Content-Type"), own("application/json")),
        (own("Authorization"), cat("Bearer ", opts.api_key.as_str())),
    ];
    assert(text_members(headers@) =~= request_headers(opts.api_key@));
    let texts = vec![(own("model"), opts.model.clone()), (own("task"), opts.task.clone())];
    let lists = vec![(own("input"), clone_strs(passages))];
    let counts = vec![(own("dimensions"), opts.dimensions as u64)];
    let flags = vec![
        (own("truncate"), opts.truncate),
        (own("late_chunking"), opts.late_chunking),
        (own("normalized"), opts.normalized),
        (own("return_multivector"), opts.return_multivector),
    ];
    assert(text_members(texts@) =~= seq![("model"@, opts.model@), ("task"@, opts.task@)]);
    assert(strs_view(passages@) =~= passages@.map_values(|p: String| p@));
    assert(list_members(lists@) =~= seq![("input"@, passages@.map_values(|p: String| p@))]);
    assert(crate::code_writes::count_members(counts@) =~= seq![("dimensions"@, opts.dimensions as u64)]);
    assert(crate::code_writes::flag_members(flags@) =~= seq![
        ("truncate"@, opts.truncate),
        ("late_chunking"@, opts.late_chunking),
        ("normalized"@, opts.normalized),
        ("return_multivector"@, opts.return_multivector),
    ]);
    let body = json_object(texts, lists, counts, flags);
    Ok(Some((headers, body)))
}

/// The error an unsuccessful answer turns into: its status and the first 800 characters
/// of its body, line breaks turned into spaces.
pub fn status_error(status: &str, body: &str) -> (r: String)
    ensures
        r@ == "Jina embeddings HTTP "@ + status@ + ": "@ + replace_char(first_chars(body@, 800), '\n', " "@),
{
    let b = chars_of(body);
    let head = if b.len() <= 800 {
        b
    } else {
        let t = sub_vec(b.as_slice(), 0, 800);
        assert(t@ =~= b@.take(800));
        t
    };
    let flat = replace_char_exec(head.as_slice(), '\n', chars_of(" ").as_slice());
    let mut e = cat3("Jina embeddings HTTP ", status, ": ");
    e.append(string_of(&flat).as_str());
    e
}

/// The key an answer item is ordered by: its index, or -1 when it has none.
pub open spec fn item_key(index: Option<i64>) -> int {
    match index {
        Some(k) => k as int,
        None => -1,
    }
}

/// Item `a` of an answer comes before item `b`: by key, and in answer order among equal
/// keys.
pub open spec fn comes_before(indices: Seq<Option<i64>>, a: int, b: int) -> bool {
    item_key(indices[a]) < item_key(indices[b]) || (item_key(indices[a]) == item_key(indices[b]) && a < b)
}

/// `order` lists the positions of the items of an answer with the given indices, each
/// once, sorted by key and stably.
pub open spec fn is_answer_order(indices: Seq<Option<i64>>, order: Seq<usize>) -> bool {
    &&& order.len() == indices.len()
    &&& forall|a: int| 0 <= a < order.len() ==> #[trigger] order[a] < indices.len()
    &&& forall|a: int, b: int|
        0 <= a < b < order.len() ==> comes_before(indices, #[trigger] order[a] as int, #[trigger] order[b] as int)
}

fn key_of(index: Option<i64>) -> (r: i64)
    ensures
        r == item_key(index),
{
    match index {
        Some(k) => k,
        None => -1,
    }
}

/// The error of an answer with `got` vectors for `expected` passages.
pub open spec fn count_mismatch(expected: nat, got: nat) -> Seq<char> {
    "Jina embeddings count mismatch (expected "@ + decimal(expected) + ", got "@ + decimal(got) + ")."@
}

/// The error of an answer with `got` vectors for `expected` passages.
pub(crate) fn count_mismatch_error(expected: usize, got: usize) -> (r: String)
    ensures
        r@ == count_mismatch(expected as nat, got as nat),
{
    let mut e = cat("Jina embeddings count mismatch (expected ", string_of(&fmt_usize(expected)).as_str());
    e.append(", got ");
    e.append(string_of(&fmt_usize(got)).as_str());
    e.append(").");
    e
}

/// The order in which the vectors of an answer to a request for `expected` passages are
/// taken, given each item's index and whether it carries a vector: sorted by index (none
/// counting as -1), stably. An item without a vector makes the answer an error, and so
/// does an answer with another number of vectors than passages.
pub fn embedding_order(items: &Vec<(Option<i64>, bool)>, expected: usize) -> (r: Result<Vec<usize>, String>)
    ensures
        (exists|k: int| 0 <= k < items@.len() && !(#[trigger] items@[k]).1) ==> (r matches Err(e) && e@
            == "Jina embeddings response contained an item without embedding[]"@),
        (forall|k: int| 0 <= k < items@.len() ==> (#[trigger] items@[k]).1) && items@.len() != expected ==> (
        r matches Err(e) && e@ == count_mismatch(expected as nat, items@.len())),
        (forall|k: int| 0 <= k < items@.len() ==> (#[trigger] items@[k]).1) && items@.len() == expected ==> (
        r matches Ok(order) && is_answer_order(items@.map_values(|it: (Option<i64>, bool)| it.0), order@)),
{
    let ghost keys = items@.map_values(|it: (Option<i64>, bool)| it.0);
    let n = items.len();
    let mut k: usize = 0;
    while k < n
        invariant
            n == items@.len(),
            k <= n,
            forall|j: int| 0 <= j < k ==> (#[trigger] items@[j]).1,
        decreases n - k,
    {
        if !items[k].1 {
            return Err(own("Jina embeddings response contained an item without embedding[]"));
        }
        k = k + 1;
    }
    if n != expected {
        return Err(count_mismatch_error(expected, n));
    }
    let mut order: Vec<usize> = Vec::new();
    let mut i: usize = 0;
    while i < n
        invariant
            n == items@.len(),
            keys == items@.map_values(|it: (Option<i64>, bool)| it.0),
            i <= n,
            order@.len() == i,
            forall|a: int| 0 <= a < order@.len() ==> #[trigger] order@[a] < i,
            forall|a: int, b: int|
                0 <= a < b < order@.len() ==> comes_before(keys, #[trigger] order@[a] as int, #[trigger] order@[b] as int),
        decreases n - i,
    {
        let ki = key_of(items[i].0);
        assert(keys[i as int] == items@[i as int].0);
        let mut pos: usize = 0;
        while pos < order.len() && key_of(items[order[pos]].0) <= ki
            invariant
                n == items@.len(),
                keys == items@.map_values(|it: (Option<i64>, bool)| it.0),
                ki == item_key(keys[i as int]),
                i < n,
                pos <= order@.len(),
                forall|a: int| 0 <= a < order@.len() ==> #[trigger] order@[a] < i,
                forall|a: int| 0 <= a < pos ==> item_key(keys[#[trigger] order@[a] as int]) <= ki,
            decreases order@.len() - pos,
        {
            assert(keys[order@[pos as int] as int] == items@[order@[pos as int] as int].0);
            pos = pos + 1;
        }
        proof {
            if pos < order@.len() {
                assert(keys[order@[pos as int] as int] == items@[order@[pos as int] as int].0);
            }
        }
        let ghost old_order = order@;
        order.insert(pos, i);
        proof {
            old_order.insert_ensures(pos as int, i);
            assert forall|a: int| 0 <= a < order@.len() implies #[trigger] order@[a] < i + 1 by {
                if a < pos {
                    assert(order@[a] == old_order[a]);
                } else if a > pos {
                    assert(order@[a] == old_order[a - 1]);
                }
            }
            assert forall|a: int, b: int| 0 <= a < b < order@.len() implies comes_before(
                keys,
                #[trigger] order@[a] as int,
                #[trigger] order@[b] as int,
            ) by {
                if b < pos {
                    assert(order@[a] == old_order[a] && order@[b] == old_order[b]);
                } else if b == pos {
                    assert(order@[a] == old_order[a]);
                } else if a < pos {
                    assert(order@[a] == old_order[a] && order@[b] == old_order[b - 1]);
                    assert(comes_before(keys, old_order[pos as int] as int, old_order[b - 1] as int)
                        || pos == b - 1);
                } else if a == pos {
                    assert(order@[b] == old_order[b - 1]);
                    assert(comes_before(keys, old_order[pos as int] as int, old_order[b - 1] as int)
                        || pos == b - 1);
                } else {
                    assert(order@[a] == old_order[a - 1] && order@[b] == old_order[b - 1]);
                }
            }
        }
        i = i + 1;
    }
    Ok(order)
}

} // verus!
