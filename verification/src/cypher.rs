//! Cypher text: literal escaping, keyword extraction for entity enrichment, read-only
//! classification and row limits for the operator query shell, and the graph queries.
use vstd::prelude::*;

use crate::ladybug::{run_adhoc_query, LadybugDb};
use crate::model::strs_view;
use crate::preview::{byte_len, byte_len_exceeds, split_whitespace_exec, words};
use crate::text::{
    lemma_replace_char_concat, lemma_replace_single,
    ascii_upper, chars_eq, chars_of, concat, contains, contains_exec, fmt_usize, decimal,
    is_alphanumeric, replace_char, replace_char_exec, string_of, sub_vec, to_ascii_upper,
    to_lowercase, trim, trim_exec, unicode_alphanumeric, unicode_lowercase, views,
};

verus! {

/// `s` with `\` doubled and `"` preceded by `\`.
pub open spec fn escape_spec(s: Seq<char>) -> Seq<char> {
    replace_char(replace_char(s, '\\', seq!['\\', '\\']), '"', seq!['\\', '"'])
}

/// The escape of one character inside a Cypher string literal.
pub open spec fn escape_one(c: char) -> Seq<char> {
    if c == '\\' {
        seq!['\\', '\\']
    } else if c == '"' {
        seq!['\\', '"']
    } else {
        seq![c]
    }
}

/// How Cypher reads the text inside a string literal: `\` followed by a character
/// stands for that character; any other character stands for itself.
pub open spec fn unescape_literal(t: Seq<char>) -> Seq<char>
    decreases t.len(),
{
    if t.len() == 0 {
        Seq::<char>::empty()
    } else if t[0] == '\\' && t.len() >= 2 {
        seq![t[1]] + unescape_literal(t.skip(2))
    } else {
        seq![t[0]] + unescape_literal(t.skip(1))
    }
}

proof fn lemma_escape_front(c: char, rest: Seq<char>)
    ensures
        escape_spec(seq![c] + rest) == escape_one(c) + escape_spec(rest),
{
    let bs = seq!['\\', '\\'];
    let q = seq!['\\', '"'];
    lemma_replace_char_concat(seq![c], rest, '\\', bs);
    let once_c = replace_char(seq![c], '\\', bs);
    lemma_replace_single(c, '\\', bs);
    lemma_replace_char_concat(once_c, replace_char(rest, '\\', bs), '"', q);
    if c == '\\' {
        assert(bs =~= seq!['\\'] + seq!['\\']);
        lemma_replace_char_concat(seq!['\\'], seq!['\\'], '"', q);
        lemma_replace_single('\\', '"', q);
    } else {
        lemma_replace_single(c, '"', q);
    }
}

/// Escaping loses nothing: the text of an escaped value, read as the inside of a Cypher
/// string literal, is the value again.
pub proof fn lemma_escape_reads_back(s: Seq<char>)
    ensures
        unescape_literal(escape_spec(s)) == s,
    decreases s.len(),
{
    if s.len() == 0 {
        assert(escape_spec(s) =~= Seq::<char>::empty());
    } else {
        let c = s[0];
        let rest = s.skip(1);
        assert(s =~= seq![c] + rest);
        lemma_escape_front(c, rest);
        lemma_escape_reads_back(rest);
        let t = escape_one(c) + escape_spec(rest);
        if c == '\\' || c == '"' {
            assert(t.skip(2) =~= escape_spec(rest));
        } else {
            assert(t.skip(1) =~= escape_spec(rest));
        }
        assert(seq![c] + unescape_literal(escape_spec(rest)) =~= s);
    }
}

fn escape_chars(v: &Vec<char>) -> (r: Vec<char>)
    ensures
        r@ == escape_spec(v@),
{
    let bs = vec!['\\', '\\'];
    let q = vec!['\\', '"'];
    assert(bs@ =~= seq!['\\', '\\']);
    assert(q@ =~= seq!['\\', '"']);
    let once = replace_char_exec(v, '\\', &bs);
    replace_char_exec(&once, '"', &q)
}

/// Escapes a string value for interpolation into a double-quoted Cypher literal.
pub fn escape_cypher(value: &str) -> (r: String)
    ensures
        r@ == escape_spec(value@),
{
    string_of(&escape_chars(&chars_of(value)))
}

/// Words that are never keywords.
pub open spec fn stop_words() -> Seq<Seq<char>> {
    seq![
        "the"@,
        "and"@,
        "for"@,
        "with"@,
        "from"@,
        "that"@,
        "this"@,
        "note"@,
        "board"@,
    ]
}

/// `s` with characters that are not alphanumeric removed at both ends.
pub open spec fn trim_non_alnum_start(s: Seq<char>) -> Seq<char>
    decreases s.len(),
{
    if s.len() > 0 && !unicode_alphanumeric(s[0]) {
        trim_non_alnum_start(s.drop_first())
    } else {
        s
    }
}

pub open spec fn trim_non_alnum_end(s: Seq<char>) -> Seq<char>
    decreases s.len(),
{
    if s.len() > 0 && !unicode_alphanumeric(s.last()) {
        trim_non_alnum_end(s.drop_last())
    } else {
        s
    }
}

/// The keyword candidate of a word: lower-cased, non-alphanumerics trimmed at both ends.
pub open spec fn keyword_of(word: Seq<char>) -> Seq<char> {
    trim_non_alnum_end(trim_non_alnum_start(unicode_lowercase(word)))
}

/// A candidate is kept when it has at least 3 characters and is not a stop word.
pub open spec fn keeps(w: Seq<char>) -> bool {
    w.len() >= 3 && !stop_words().contains(w)
}

/// Keywords after the words `ws`, starting from `acc`, stopping once `max` are held.
pub open spec fn keywords_from(acc: Seq<Seq<char>>, ws: Seq<Seq<char>>, max: nat) -> Seq<Seq<char>>
    decreases ws.len(),
{
    if ws.len() == 0 || acc.len() >= max {
        acc
    } else {
        let w = keyword_of(ws[0]);
        let acc2 = if keeps(w) && !acc.contains(w) {
            acc.push(w)
        } else {
            acc
        };
        keywords_from(acc2, ws.drop_first(), max)
    }
}

/// The keywords of a title.
pub open spec fn keywords(title: Seq<char>, max: nat) -> Seq<Seq<char>> {
    keywords_from(Seq::<Seq<char>>::empty(), words(title), max)
}

pub proof fn lemma_keywords_from(acc: Seq<Seq<char>>, ws: Seq<Seq<char>>, max: nat)
    requires
        acc.no_duplicates(),
        forall|j: int| 0 <= j < acc.len() ==> keeps(#[trigger] acc[j]),
        acc.len() <= max,
    ensures
        keywords_from(acc, ws, max).no_duplicates(),
        forall|j: int|
            0 <= j < keywords_from(acc, ws, max).len() ==> keeps(
                #[trigger] keywords_from(acc, ws, max)[j],
            ),
        keywords_from(acc, ws, max).len() <= max,
    decreases ws.len(),
{
    if ws.len() > 0 && acc.len() < max {
        let w = keyword_of(ws[0]);
        let acc2 = if keeps(w) && !acc.contains(w) {
            acc.push(w)
        } else {
            acc
        };
        if keeps(w) && !acc.contains(w) {
            assert forall|a: int, b: int| 0 <= a < b < acc2.len() implies acc2[a] != acc2[b] by {
                if b == acc.len() {
                    assert(acc.contains(acc[a]));
                }
            }
            assert forall|j: int| 0 <= j < acc2.len() implies keeps(#[trigger] acc2[j]) by {
                if j < acc.len() {
                    assert(acc2[j] == acc[j]);
                }
            }
        }
        lemma_keywords_from(acc2, ws.drop_first(), max);
    }
}

/// Whether `w` is none of the words `the`, `and`, `for`, `with`, `from`, `that`, `this`,
/// `note` and `board`.
pub open spec fn not_listed_stop_word(w: Seq<char>) -> bool {
    w != "the"@
        && w != "and"@
        && w != "for"@
        && w != "with"@
        && w != "from"@
        && w != "that"@
        && w != "this"@
        && w != "note"@
        && w != "board"@
}

/// No keyword of a title is one of the stop words `the`, `and`, `for`, `with`, `from`,
/// `that`, `this`, `note` or `board`, and each has at least three characters.
pub proof fn lemma_keywords_skip_stop_words(title: Seq<char>, max: nat)
    ensures
        forall|j: int| 0 <= j < keywords(title, max).len() ==> {
            &&& not_listed_stop_word(#[trigger] keywords(title, max)[j])
            &&& keywords(title, max)[j].len() >= 3
        },
{
    lemma_keywords_from(Seq::<Seq<char>>::empty(), words(title), max);
    let sw = stop_words();
    assert(sw[0] == "the"@);
    assert(sw[1] == "and"@);
    assert(sw[2] == "for"@);
    assert(sw[3] == "with"@);
    assert(sw[4] == "from"@);
    assert(sw[5] == "that"@);
    assert(sw[6] == "this"@);
    assert(sw[7] == "note"@);
    assert(sw[8] == "board"@);
    assert forall|j: int| 0 <= j < keywords(title, max).len() implies {
        &&& not_listed_stop_word(#[trigger] keywords(title, max)[j])
        &&& keywords(title, max)[j].len() >= 3
    } by {
        let w = keywords(title, max)[j];
        assert(keeps(w));
        assert(sw.contains(sw[0]));
        assert(sw.contains(sw[1]));
        assert(sw.contains(sw[2]));
        assert(sw.contains(sw[3]));
        assert(sw.contains(sw[4]));
        assert(sw.contains(sw[5]));
        assert(sw.contains(sw[6]));
        assert(sw.contains(sw[7]));
        assert(sw.contains(sw[8]));
    }
}

fn trim_non_alnum(v: &Vec<char>) -> (r: Vec<char>)
    ensures
        r@ == trim_non_alnum_end(trim_non_alnum_start(v@)),
{
    let n = v.len();
    let mut i: usize = 0;
    assert(v@.subrange(0, n as int) =~= v@);
    while i < n && !is_alphanumeric(v[i])
        invariant
            n == v@.len(),
            i <= n,
            trim_non_alnum_start(v@) == trim_non_alnum_start(v@.subrange(i as int, n as int)),
        decreases n - i,
    {
        assert(v@.subrange(i as int, n as int).drop_first() =~= v@.subrange(i + 1, n as int));
        i = i + 1;
    }
    let t = sub_vec(v, i, n);
    let mut j: usize = t.len();
    assert(t@.subrange(0, j as int) =~= t@);
    while j > 0 && !is_alphanumeric(t[j - 1])
        invariant
            j <= t@.len(),
            trim_non_alnum_end(t@) == trim_non_alnum_end(t@.subrange(0, j as int)),
        decreases j,
    {
        assert(t@.subrange(0, j as int).drop_last() =~= t@.subrange(0, j - 1));
        j = j - 1;
    }
    sub_vec(&t, 0, j)
}

fn is_stop_word(w: &Vec<char>) -> (r: bool)
    ensures
        r == stop_words().contains(w@),
{
    let list = vec![
        chars_of("the"),
        chars_of("and"),
        chars_of("for"),
        chars_of("with"),
        chars_of("from"),
        chars_of("that"),
        chars_of("this"),
        chars_of("note"),
        chars_of("board"),
    ];
    assert(views(list@) =~= stop_words());
    contains_word(&list, w)
}

/// Whether `w` is one of `list`.
fn contains_word(list: &Vec<Vec<char>>, w: &Vec<char>) -> (r: bool)
    ensures
        r == views(list@).contains(w@),
{
    let mut i: usize = 0;
    while i < list.len()
        invariant
            i <= list@.len(),
            forall|j: int| 0 <= j < i ==> list@[j]@ != w@,
        decreases list@.len() - i,
    {
        if chars_eq(&list[i], w) {
            assert(views(list@)[i as int] == w@);
            return true;
        }
        i = i + 1;
    }
    assert forall|j: int| 0 <= j < views(list@).len() implies views(list@)[j] != w@ by {
        assert(views(list@)[j] == list@[j]@);
    }
    false
}

/// Extracts up to `max` keywords from a title: words of at least 3 characters,
/// lower-cased and trimmed of non-alphanumerics, stop words removed, each kept once, in
/// order of first occurrence. The scan stops once `max` keywords are held.
pub fn extract_keywords(title: &str, max: usize) -> (r: Vec<String>)
    ensures
        strs_view(r@) == keywords(title@, max as nat),
        strs_view(r@).no_duplicates(),
        forall|j: int| 0 <= j < r@.len() ==> keeps(#[trigger] strs_view(r@)[j]),
        forall|j: int| 0 <= j < r@.len() ==> not_listed_stop_word(#[trigger] r@[j]@),
        r@.len() <= max,
{
    let ws = split_whitespace_exec(&chars_of(title));
    let mut found: Vec<Vec<char>> = Vec::new();
    let ghost all = words(title@);
    assert(all.skip(0) =~= all);
    assert(views(found@) =~= Seq::<Seq<char>>::empty());
    let mut i: usize = 0;
    while i < ws.len() && found.len() < max
        invariant
            i <= ws@.len(),
            views(ws@) == all,
            views(found@).len() <= max,
            keywords(title@, max as nat) == keywords_from(views(found@), all.skip(i as int), max as nat),
        decreases ws@.len() - i,
    {
        let ghost acc = views(found@);
        assert(all.skip(i as int)[0] == ws@[i as int]@);
        assert(all.skip(i as int).drop_first() =~= all.skip(i + 1));
        let word: String = string_of(&ws[i]);
        let lower = to_lowercase(word.as_str());
        let w = trim_non_alnum(&chars_of(lower.as_str()));
        assert(w@ == keyword_of(all.skip(i as int)[0]));
        let long_enough = w.len() >= 3;
        if long_enough && !is_stop_word(&w) && !contains_word(&found, &w) {
            found.push(w);
            assert(views(found@) =~= acc.push(keyword_of(all.skip(i as int)[0])));
        }
        i = i + 1;
    }
    proof {
        if i == ws.len() {
            assert(all.skip(i as int) =~= Seq::<Seq<char>>::empty());
        }
        lemma_keywords_from(Seq::<Seq<char>>::empty(), all, max as nat);
        lemma_keywords_skip_stop_words(title@, max as nat);
    }
    let mut r: Vec<String> = Vec::new();
    let mut k: usize = 0;
    while k < found.len()
        invariant
            k <= found@.len(),
            strs_view(r@) == views(found@).take(k as int),
        decreases found@.len() - k,
    {
        let ghost before = strs_view(r@);
        r.push(string_of(&found[k]));
        assert(strs_view(r@) =~= before.push(found@[k as int]@));
        assert(views(found@).take(k + 1) =~= views(found@).take(k as int).push(found@[k as int]@));
        k = k + 1;
    }
    assert(views(found@).take(found@.len() as int) =~= views(found@));
    assert forall|j: int| 0 <= j < r@.len() implies not_listed_stop_word(#[trigger] r@[j]@) by {
        assert(strs_view(r@)[j] == r@[j]@);
    }
    r
}

/// Keywords that make a query a mutation.
pub open spec fn blocked_keywords() -> Seq<Seq<char>> {
    seq![
        "CREATE "@,
        "DELETE "@,
        "DETACH "@,
        "DROP "@,
        "MERGE "@,
        "REMOVE "@,
        "SET "@,
        "INSERT "@,
    ]
}

/// The mutating keywords are exactly `CREATE`, `DELETE`, `DETACH`, `DROP`, `MERGE`,
/// `REMOVE`, `SET` and `INSERT`, each followed by a space: a query whose ASCII upper-case
/// form contains one of them is never read-only, and one that contains none of them is.
pub proof fn lemma_readonly_keywords(sql: Seq<char>)
    ensures
        !is_readonly(sql) <==> (
            contains(ascii_upper(sql), "CREATE "@)
            || contains(ascii_upper(sql), "DELETE "@)
            || contains(ascii_upper(sql), "DETACH "@)
            || contains(ascii_upper(sql), "DROP "@)
            || contains(ascii_upper(sql), "MERGE "@)
            || contains(ascii_upper(sql), "REMOVE "@)
            || contains(ascii_upper(sql), "SET "@)
            || contains(ascii_upper(sql), "INSERT "@)
        ),
{
    let b = blocked_keywords();
    assert(b[0] == "CREATE "@);
    assert(b[1] == "DELETE "@);
    assert(b[2] == "DETACH "@);
    assert(b[3] == "DROP "@);
    assert(b[4] == "MERGE "@);
    assert(b[5] == "REMOVE "@);
    assert(b[6] == "SET "@);
    assert(b[7] == "INSERT "@);
    assert(b.len() == 8);
}

/// A query is read-only when its ASCII upper-case form contains none of the blocked
/// keywords.
pub open spec fn is_readonly(sql: Seq<char>) -> bool {
    forall|j: int| 0 <= j < blocked_keywords().len() ==> !contains(ascii_upper(sql), #[trigger] blocked_keywords()[j])
}

/// Whether a Cypher query is free of mutating keywords: false exactly when its ASCII
/// upper-case form contains `CREATE `, `DELETE `, `DETACH `, `DROP `, `MERGE `, `REMOVE `,
/// `SET ` or `INSERT `.
pub fn is_readonly_cypher(sql: &str) -> (r: bool)
    ensures
        r == is_readonly(sql@),
        !r <==> (
            contains(ascii_upper(sql@), "CREATE "@)
            || contains(ascii_upper(sql@), "DELETE "@)
            || contains(ascii_upper(sql@), "DETACH "@)
            || contains(ascii_upper(sql@), "DROP "@)
            || contains(ascii_upper(sql@), "MERGE "@)
            || contains(ascii_upper(sql@), "REMOVE "@)
            || contains(ascii_upper(sql@), "SET "@)
            || contains(ascii_upper(sql@), "INSERT "@)
        ),
{
    proof {
        lemma_readonly_keywords(sql@);
    }
    let upper = to_ascii_upper(&chars_of(sql));
    let blocked = vec![
        chars_of("CREATE "),
        chars_of("DELETE "),
        chars_of("DETACH "),
        chars_of("DROP "),
        chars_of("MERGE "),
        chars_of("REMOVE "),
        chars_of("SET "),
        chars_of("INSERT "),
    ];
    assert(views(blocked@) =~= blocked_keywords());
    let mut i: usize = 0;
    while i < blocked.len()
        invariant
            i <= blocked@.len(),
            views(blocked@) == blocked_keywords(),
            upper@ == ascii_upper(sql@),
            forall|j: int| 0 <= j < i ==> !contains(upper@, #[trigger] blocked_keywords()[j]),
        decreases blocked@.len() - i,
    {
        assert(blocked_keywords()[i as int] == blocked@[i as int]@);
        if contains_exec(&upper, &blocked[i]) {
            proof {
                lemma_readonly_keywords(sql@);
            }
            return false;
        }
        i = i + 1;
    }
    true
}

/// `sql` unchanged when its upper-case form contains ` LIMIT `, else with ` LIMIT cap`
/// appended.
pub open spec fn with_limit(sql: Seq<char>, cap: nat) -> Seq<char> {
    if contains(ascii_upper(sql), " LIMIT "@) {
        sql
    } else {
        sql + " LIMIT "@ + decimal(cap)
    }
}

/// Appends a row limit to a query that has none.
pub fn ensure_limit(sql: &str, cap: usize) -> (r: String)
    ensures
        r@ == with_limit(sql@, cap as nat),
{
    let v = chars_of(sql);
    let upper = to_ascii_upper(&v);
    let kw = chars_of(" LIMIT ");
    if contains_exec(&upper, &kw) {
        string_of(&v)
    } else {
        string_of(&concat(&concat(&v, &kw), &fmt_usize(cap)))
    }
}

/// Default number of rows of a shell query.
pub const DEFAULT_ROW_LIMIT: usize = 100;

/// Longest accepted query, in bytes.
pub const MAX_QUERY_CHARS: usize = 8192;

/// How the shell treated a query.
#[derive(Debug, Clone, Copy, PartialEq, Eq, Structural)]
pub enum QueryClassification {
    ReadOnly,
    RejectedMutation,
    Empty,
}

/// Result of a shell query.
#[derive(Debug, Clone)]
pub struct QueryResult {
    pub classification: QueryClassification,
    pub columns: Vec<String>,
    pub rows: Vec<Vec<String>>,
    pub truncated: bool,
    pub duration_ms: u64,
}

/// What the shell does with a query.
#[derive(Debug)]
pub enum QueryPlan {
    /// Answer at once, without touching the database.
    Answer(QueryResult),
    /// Run the bounded query against the database.
    Run(String),
}

/// Ways a shell query fails.
pub open spec fn query_error(cypher: Seq<char>, db_available: bool) -> Option<Seq<char>> {
    let t = trim(cypher);
    if t.len() == 0 {
        None
    } else if byte_len(t) > 8192 {
        Some("query_limit_exceeded"@)
    } else if !is_readonly(t) {
        None
    } else if !db_available {
        Some("ladybug_unavailable"@)
    } else {
        None
    }
}

/// Read-only query shell over Ladybug.
pub struct LadybugQueryService;

impl LadybugQueryService {
    /// Classifies a Cypher string: empty and mutating queries are answered at once, a
    /// query over the byte limit or with no database is refused, and a read-only query
    /// runs with a row limit.
    pub fn plan(db_available: bool, cypher: &str, row_limit: usize) -> (r: Result<
        QueryPlan,
        String,
    >)
        ensures
            match r {
                Err(e) => query_error(cypher@, db_available) == Some(e@),
                Ok(QueryPlan::Answer(q)) => query_error(cypher@, db_available) is None && (if trim(
                    cypher@,
                ).len() == 0 {
                    q.classification == QueryClassification::Empty
                } else {
                    q.classification == QueryClassification::RejectedMutation && !is_readonly(
                        trim(cypher@),
                    )
                }) && q.columns@.len() == 0 && q.rows@.len() == 0 && !q.truncated
                    && q.duration_ms == 0,
                Ok(QueryPlan::Run(sql)) => query_error(cypher@, db_available) is None
                    && trim(cypher@).len() > 0 && is_readonly(trim(cypher@)) && db_available
                    && sql@ == with_limit(trim(cypher@), row_limit as nat),
            },
    {
        let t = trim_exec(&chars_of(cypher));
        if t.len() == 0 {
            return Ok(
                QueryPlan::Answer(
                    QueryResult {
                        classification: QueryClassification::Empty,
                        columns: Vec::new(),
                        rows: Vec::new(),
                        truncated: false,
                        duration_ms: 0,
                    },
                ),
            );
        }
        if byte_len_exceeds(&t, MAX_QUERY_CHARS) {
            return Err(String::from_str("query_limit_exceeded"));
        }
        let ts = string_of(&t);
        if !is_readonly_cypher(ts.as_str()) {
            return Ok(
                QueryPlan::Answer(
                    QueryResult {
                        classification: QueryClassification::RejectedMutation,
                        columns: Vec::new(),
                        rows: Vec::new(),
                        truncated: false,
                        duration_ms: 0,
                    },
                ),
            );
        }
        if !db_available {
            return Err(String::from_str("ladybug_unavailable"));
        }
        Ok(QueryPlan::Run(ensure_limit(ts.as_str(), row_limit)))
    }

    /// The result of a read-only query that ran.
    pub fn ran(columns: Vec<String>, rows: Vec<Vec<String>>, truncated: bool, duration_ms: u64) -> (r:
        QueryResult)
        ensures
            r.classification == QueryClassification::ReadOnly,
            r.columns == columns,
            r.rows == rows,
            r.truncated == truncated,
            r.duration_ms == duration_ms,
    {
        QueryResult { classification: QueryClassification::ReadOnly, columns, rows, truncated, duration_ms }
    }

    /// Classifies a Cypher string and runs it when it is a read-only query and a
    /// database is open: the answer of [`Self::plan`] for every other query, and for a
    /// query that ran, its columns, rows and time. Refused exactly when
    /// [`query_error`] names an error.
    pub fn execute(db: Option<&LadybugDb>, cypher: &str, row_limit: usize) -> (r: Result<
        QueryResult,
        String,
    >)
        ensures
            match r {
                Err(e) => query_error(cypher@, db is Some) == Some(e@),
                Ok(q) => query_error(cypher@, db is Some) is None && (if trim(cypher@).len() == 0 {
                    q.classification == QueryClassification::Empty
                } else if !is_readonly(trim(cypher@)) {
                    q.classification == QueryClassification::RejectedMutation
                } else {
                    q.classification == QueryClassification::ReadOnly
                }) && q.columns@.len() == 0 && q.rows@.len() == 0 && !q.truncated,
            },
            query_error(cypher@, db is Some) is None ==> r is Ok,
    {
        let available = match db {
            Some(_) => true,
            None => false,
        };
        match Self::plan(available, cypher, row_limit) {
            Err(e) => Err(e),
            Ok(QueryPlan::Answer(q)) => Ok(q),
            Ok(QueryPlan::Run(bounded)) => match db {
                None => Err(String::from_str("ladybug_unavailable")),
                Some(conn) => {
                    let started = clock_now();
                    match run_adhoc_query(conn, bounded.as_str(), row_limit) {
                        Ok((columns, rows, truncated)) => {
                            let took = elapsed_since(&started);
                            Ok(Self::ran(columns, rows, truncated, duration_millis(&took)))
                        },
                        Err(e) => Err(e),
                    }
                },
            },
        }
    }
}


/// A monotonic clock reading (`std::time::Instant`), carried from the start of a query
/// to its end.
#[verifier::external_type_specification]
#[verifier::external_body]
pub struct ExInstant(std::time::Instant);

/// `std::time::Instant::now`: the current reading of the monotonic clock. Nothing is
/// promised of it.
#[verifier::external_body]
fn clock_now() -> (r: std::time::Instant) {
    std::time::Instant::now()
}

/// `std::time::Instant::elapsed`: the time since `start`. Nothing is promised of it.
#[verifier::external_body]
fn elapsed_since(start: &std::time::Instant) -> (r: std::time::Duration) {
    start.elapsed()
}

/// `std::time::Duration::as_millis`, cut to 64 bits: whole milliseconds of `d`.
/// Nothing is stated of the value.
#[verifier::external_body]
fn duration_millis(d: &std::time::Duration) -> (r: u64) {
    d.as_millis() as u64
}

/// A Cypher string literal holding `s`.
pub open spec fn quoted(s: Seq<char>) -> Seq<char> {
    seq!['"'] + escape_spec(s) + seq!['"']
}

/// The literals of `ids` separated by `, `.
pub open spec fn quoted_list(ids: Seq<Seq<char>>) -> Seq<char>
    decreases ids.len(),
{
    if ids.len() == 0 {
        Seq::<char>::empty()
    } else if ids.len() == 1 {
        quoted(ids[0])
    } else {
        quoted_list(ids.drop_last()) + ", "@ + quoted(ids.last())
    }
}

fn quoted_exec(s: &str) -> (r: Vec<char>)
    ensures
        r@ == quoted(s@),
{
    let q = vec!['"'];
    concat(&concat(&q, &escape_chars(&chars_of(s))), &q)
}

/// The Cypher list items of `ids`: each a quoted, escaped literal, separated by `, `.
pub fn quoted_list_exec(ids: &Vec<String>) -> (r: Vec<char>)
    ensures
        r@ == quoted_list(strs_view(ids@)),
{
    let ghost xs = strs_view(ids@);
    let mut out: Vec<char> = Vec::new();
    let sep = chars_of(", ");
    let mut i: usize = 0;
    while i < ids.len()
        invariant
            i <= ids@.len(),
            xs == strs_view(ids@),
            sep@ == ", "@,
            out@ == quoted_list(xs.take(i as int)),
        decreases ids@.len() - i,
    {
        assert(xs.take(i + 1).drop_last() =~= xs.take(i as int));
        assert(xs.take(i + 1).last() == ids@[i as int]@);
        let item = quoted_exec(ids[i].as_str());
        if i == 0 {
            assert(xs.take(1) =~= seq![ids@[0]@]);
            out = item;
        } else {
            out = concat(&concat(&out, &sep), &item);
        }
        i = i + 1;
    }
    assert(xs.take(xs.len() as int) =~= xs);
    out
}

/// The relation sample of the explore graph, scoped to a repo and project when both are
/// given.
pub open spec fn explore_sample_sql(limit: int, scope: Option<(Seq<char>, Seq<char>)>) -> Seq<char> {
    match scope {
        Some((repo, proj)) => "MATCH (source:GraphNode)-[r:GraphRel]->(target:GraphNode)\nWHERE source.repo_id = \""@
            + escape_spec(repo) + "\" AND source.project_id = \""@ + escape_spec(proj)
            + "\"\nRETURN source.node_id AS source_id, target.node_id AS target_id, r.rel_type AS type\nLIMIT "@
            + crate::text::decimal_int(limit) + ";"@,
        None => "MATCH (source:GraphNode)-[r:GraphRel]->(target:GraphNode)\nRETURN source.node_id AS source_id, target.node_id AS target_id, r.rel_type AS type\nLIMIT "@
            + crate::text::decimal_int(limit) + ";"@,
    }
}

fn push_str(out: Vec<char>, s: &str) -> (r: Vec<char>)
    ensures
        r@ == out@ + s@,
{
    concat(&out, &chars_of(s))
}

fn push_chars(out: Vec<char>, s: &Vec<char>) -> (r: Vec<char>)
    ensures
        r@ == out@ + s@,
{
    concat(&out, s)
}

/// The query sampling `limit` relations for the explore graph.
pub fn explore_sample_query(limit: i64, repo_id: Option<&str>, project_id: Option<&str>) -> (r: String)
    ensures
        r@ == explore_sample_sql(
            limit as int,
            match (repo_id, project_id) {
                (Some(a), Some(b)) => Some((a@, b@)),
                _ => None,
            },
        ),
{
    let lim = crate::text::fmt_i64(limit);
    match (repo_id, project_id) {
        (Some(repo), Some(proj)) => {
            let mut v = chars_of(
                "MATCH (source:GraphNode)-[r:GraphRel]->(target:GraphNode)\nWHERE source.repo_id = \"",
            );
            v = push_chars(v, &escape_chars(&chars_of(repo)));
            v = push_str(v, "\" AND source.project_id = \"");
            v = push_chars(v, &escape_chars(&chars_of(proj)));
            v = push_str(
                v,
                "\"\nRETURN source.node_id AS source_id, target.node_id AS target_id, r.rel_type AS type\nLIMIT ",
            );
            v = push_chars(v, &lim);
            v = push_str(v, ";");
            string_of(&v)
        },
        _ => {
            let mut v = chars_of(
                "MATCH (source:GraphNode)-[r:GraphRel]->(target:GraphNode)\nRETURN source.node_id AS source_id, target.node_id AS target_id, r.rel_type AS type\nLIMIT ",
            );
            v = push_chars(v, &lim);
            v = push_str(v, ";");
            string_of(&v)
        },
    }
}

/// The query for all relations among the sampled endpoints.
pub open spec fn density_sql(ids: Seq<Seq<char>>) -> Seq<char> {
    "MATCH (a:GraphNode)-[r:GraphRel]->(b:GraphNode)\nWHERE a.node_id IN ["@ + quoted_list(ids)
        + "] AND b.node_id IN ["@ + quoted_list(ids)
        + "]\nRETURN a.node_id AS source_id, b.node_id AS target_id, r.rel_type AS type;"@
}

/// The query for all relations among the given endpoints.
pub fn density_query(ids: &Vec<String>) -> (r: String)
    ensures
        r@ == density_sql(strs_view(ids@)),
{
    let list = quoted_list_exec(ids);
    let mut v = chars_of("MATCH (a:GraphNode)-[r:GraphRel]->(b:GraphNode)\nWHERE a.node_id IN [");
    v = push_chars(v, &list);
    v = push_str(v, "] AND b.node_id IN [");
    v = push_chars(v, &list);
    v = push_str(v, "]\nRETURN a.node_id AS source_id, b.node_id AS target_id, r.rel_type AS type;");
    string_of(&v)
}

/// The query for full node records of the given ids.
pub open spec fn node_details_sql(ids: Seq<Seq<char>>) -> Seq<char> {
    "MATCH (n:GraphNode)\nWHERE n.node_id IN ["@ + quoted_list(ids)
        + "]\nRETURN n.node_id AS node_id, n.primary_label AS primary_label, n.name AS name,\n       n.path AS path, n.qualified_name AS qualified_name,\n       n.repo_id AS repo_id, n.project_id AS project_id, n.text AS text;"@
}

/// The query for full node records of the given ids.
pub fn node_details_query(ids: &Vec<String>) -> (r: String)
    ensures
        r@ == node_details_sql(strs_view(ids@)),
{
    let mut v = chars_of("MATCH (n:GraphNode)\nWHERE n.node_id IN [");
    v = push_chars(v, &quoted_list_exec(ids));
    v = push_str(
        v,
        "]\nRETURN n.node_id AS node_id, n.primary_label AS primary_label, n.name AS name,\n       n.path AS path, n.qualified_name AS qualified_name,\n       n.repo_id AS repo_id, n.project_id AS project_id, n.text AS text;",
    );
    string_of(&v)
}

/// The query for memory entities whose name contains `keyword`.
pub open spec fn entity_search_sql(keyword: Seq<char>, limit: int) -> Seq<char> {
    "MATCH (n:GraphNode)\nWHERE n.primary_label = \"MemoryEntity\" AND n.name CONTAINS \""@
        + escape_spec(keyword) + "\"\nRETURN n.name AS name LIMIT "@ + crate::text::decimal_int(limit)
        + ";"@
}

/// The query for up to `limit` memory entities whose name contains `keyword`.
pub fn entity_search_query(keyword: &str, limit: i64) -> (r: String)
    ensures
        r@ == entity_search_sql(keyword@, limit as int),
{
    let mut v = chars_of(
        "MATCH (n:GraphNode)\nWHERE n.primary_label = \"MemoryEntity\" AND n.name CONTAINS \"",
    );
    v = push_chars(v, &escape_chars(&chars_of(keyword)));
    v = push_str(v, "\"\nRETURN n.name AS name LIMIT ");
    v = push_chars(v, &crate::text::fmt_i64(limit));
    v = push_str(v, ";");
    string_of(&v)
}

/// The query for relations among the named memory entities.
pub open spec fn entity_relations_sql(names: Seq<Seq<char>>, limit: int) -> Seq<char> {
    "MATCH (source:GraphNode)-[r:GraphRel]->(target:GraphNode)\nWHERE source.primary_label = \"MemoryEntity\" AND target.primary_label = \"MemoryEntity\"\n  AND source.name IN ["@
        + quoted_list(names) + "] AND target.name IN ["@ + quoted_list(names)
        + "]\nRETURN source.name AS source, target.name AS target, r.rel_type AS type LIMIT "@
        + crate::text::decimal_int(limit) + ";"@
}

/// The query for up to `limit` relations among the named memory entities.
pub fn entity_relations_query(names: &Vec<String>, limit: i64) -> (r: String)
    ensures
        r@ == entity_relations_sql(strs_view(names@), limit as int),
{
    let list = quoted_list_exec(names);
    let mut v = chars_of(
        "MATCH (source:GraphNode)-[r:GraphRel]->(target:GraphNode)\nWHERE source.primary_label = \"MemoryEntity\" AND target.primary_label = \"MemoryEntity\"\n  AND source.name IN [",
    );
    v = push_chars(v, &list);
    v = push_str(v, "] AND target.name IN [");
    v = push_chars(v, &list);
    v = push_str(v, "]\nRETURN source.name AS source, target.name AS target, r.rel_type AS type LIMIT ");
    v = push_chars(v, &crate::text::fmt_i64(limit));
    v = push_str(v, ";");
    string_of(&v)
}

/// The query counting nodes per repository.
pub open spec fn repos_sql(limit: int) -> Seq<char> {
    "MATCH (n:GraphNode)\nWHERE n.repo_id IS NOT NULL\nRETURN n.repo_id AS repo_id, count(n) AS count\nORDER BY count DESC\nLIMIT "@
        + crate::text::decimal_int(limit) + ";"@
}

/// The query listing up to `limit` repositories by node count.
pub fn repos_query(limit: i64) -> (r: String)
    ensures
        r@ == repos_sql(limit as int),
{
    let mut v = chars_of(
        "MATCH (n:GraphNode)\nWHERE n.repo_id IS NOT NULL\nRETURN n.repo_id AS repo_id, count(n) AS count\nORDER BY count DESC\nLIMIT ",
    );
    v = push_chars(v, &crate::text::fmt_i64(limit));
    v = push_str(v, ";");
    string_of(&v)
}

/// The query counting nodes per project.
pub open spec fn projects_sql(limit: int) -> Seq<char> {
    "MATCH (n:GraphNode)\nWHERE n.project_id IS NOT NULL AND n.project_id <> ''\nRETURN n.project_id AS project_id, count(n) AS count\nORDER BY count DESC\nLIMIT "@
        + crate::text::decimal_int(limit) + ";"@
}

/// The query listing up to `limit` projects by node count.
pub fn projects_query(limit: i64) -> (r: String)
    ensures
        r@ == projects_sql(limit as int),
{
    let mut v = chars_of(
        "MATCH (n:GraphNode)\nWHERE n.project_id IS NOT NULL AND n.project_id <> ''\nRETURN n.project_id AS project_id, count(n) AS count\nORDER BY count DESC\nLIMIT ",
    );
    v = push_chars(v, &crate::text::fmt_i64(limit));
    v = push_str(v, ";");
    string_of(&v)
}

} // verus!
