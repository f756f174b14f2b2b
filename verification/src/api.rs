//! Client side of the workspace REST API: request paths, query strings, and the promise a
//! UI frame polls for a request's result.
use vstd::prelude::*;

use crate::model::{cat, own};
use crate::text::{chars_of, string_of};

verus! {

/// An ASCII letter or digit, or one of `-`, `_`, `.`, `~`.
pub open spec fn is_unreserved(c: char) -> bool {
    ('A' <= c && c <= 'Z') || ('a' <= c && c <= 'z') || ('0' <= c && c <= '9') || c == '-' || c
        == '_' || c == '.' || c == '~'
}

/// The uppercase hexadecimal digit of `d < 16`.
pub open spec fn hex_digit(d: nat) -> char {
    if d < 10 {
        (('0' as u32) + d) as char
    } else {
        (('A' as u32) + (d - 10)) as char
    }
}

/// The escape of a character: `%` and the two uppercase hex digits of its code point's
/// low byte.
pub open spec fn escape_char(c: char) -> Seq<char> {
    let b = (c as u32 as nat) % 256;
    seq!['%', hex_digit(b / 16), hex_digit(b % 16)]
}

/// `s` with every character but the unreserved ones escaped.
pub open spec fn url_encoded(s: Seq<char>) -> Seq<char>
    decreases s.len(),
{
    if s.len() == 0 {
        Seq::empty()
    } else {
        url_encoded(s.drop_last()) + if is_unreserved(s.last()) {
            seq![s.last()]
        } else {
            escape_char(s.last())
        }
    }
}

fn hex_digit_exec(d: u32) -> (r: char)
    requires
        d < 16,
    ensures
        r == hex_digit(d as nat),
{
    if d < 10 {
        crate::text::char_from_ascii(('0' as u32) + d)
    } else {
        crate::text::char_from_ascii(('A' as u32) + (d - 10))
    }
}

/// Percent-encodes `s` for a query string: unreserved characters are kept and every other
/// character becomes `%` with the two uppercase hex digits of its code point's low byte.
pub fn urlencoding(s: &str) -> (r: String)
    ensures
        r@ == url_encoded(s@),
{
    let v = chars_of(s);
    let mut out: Vec<char> = Vec::new();
    let mut i: usize = 0;
    while i < v.len()
        invariant
            i <= v@.len(),
            v@ == s@,
            out@ == url_encoded(v@.take(i as int)),
        decreases v@.len() - i,
    {
        let c = v[i];
        assert(v@.take(i + 1).drop_last() =~= v@.take(i as int));
        assert(v@.take(i + 1).last() == c);
        let ghost before = out@;
        if ('A' <= c && c <= 'Z') || ('a' <= c && c <= 'z') || ('0' <= c && c <= '9') || c == '-'
            || c == '_' || c == '.' || c == '~' {
            out.push(c);
        } else {
            let b = (c as u32) % 256;
            out.push('%');
            out.push(hex_digit_exec(b / 16));
            out.push(hex_digit_exec(b % 16));
        }
        assert(out@ =~= url_encoded(v@.take(i + 1)));
        i = i + 1;
    }
    assert(v@.take(v@.len() as int) =~= v@);
    string_of(&out)
}

/// Graph and repo scope filters shared by the sidebar and the graph explorer.
#[derive(Debug, Clone)]
pub struct ApiScope {
    pub repo_id: Option<String>,
    pub project_id: Option<String>,
}

/// The `key=value` part of a scope filter, if given and non-empty.
pub open spec fn scope_part(key: Seq<char>, v: Option<String>) -> Seq<Seq<char>> {
    match v {
        Some(s) => if s@.len() > 0 {
            seq![key + "="@ + url_encoded(s@)]
        } else {
            Seq::empty()
        },
        None => Seq::empty(),
    }
}

/// The query string of a scope: `?` and its parts joined by `&`, or nothing.
pub open spec fn scope_suffix(repo_id: Option<String>, project_id: Option<String>) -> Seq<char> {
    let parts = scope_part("repo_id"@, repo_id) + scope_part("project_id"@, project_id);
    if parts.len() == 0 {
        Seq::empty()
    } else if parts.len() == 1 {
        "?"@ + parts[0]
    } else {
        "?"@ + parts[0] + "&"@ + parts[1]
    }
}

impl ApiScope {
    /// No filter.
    pub fn new() -> (r: ApiScope)
        ensures
            r.repo_id is None,
            r.project_id is None,
    {
        ApiScope { repo_id: None, project_id: None }
    }

    /// The query string selecting this scope: `?repo_id=..&project_id=..` with the given,
    /// non-empty filters URL-encoded, or the empty string.
    pub fn query_suffix(&self) -> (r: String)
        ensures
            r@ == scope_suffix(self.repo_id, self.project_id),
    {
        let mut parts: Vec<String> = Vec::new();
        proof {
            reveal_strlit("repo_id=");
            reveal_strlit("project_id=");
            reveal_strlit("repo_id");
            reveal_strlit("project_id");
            reveal_strlit("=");
        }
        match &self.repo_id {
            Some(r) => {
                if r.as_str().unicode_len() != 0 {
                    let e = urlencoding(r.as_str());
                    let x = cat("repo_id=", e.as_str());
                    assert(x@ =~= "repo_id"@ + "="@ + url_encoded(r@));
                    parts.push(x);
                    assert(parts@.map_values(|s: String| s@) =~= seq![x@]);
                }
            },
            None => {},
        }
        let ghost first = scope_part("repo_id"@, self.repo_id);
        assert(parts@.map_values(|s: String| s@) =~= first);
        match &self.project_id {
            Some(q) => {
                if q.as_str().unicode_len() != 0 {
                    let e = urlencoding(q.as_str());
                    let x = cat("project_id=", e.as_str());
                    assert(x@ =~= "project_id"@ + "="@ + url_encoded(q@));
                    let ghost before = parts@.map_values(|s: String| s@);
                    parts.push(x);
                    assert(parts@.map_values(|s: String| s@) =~= before.push(x@));
                }
            },
            None => {},
        }
        let ghost all = first + scope_part("project_id"@, self.project_id);
        assert(parts@.map_values(|s: String| s@) =~= all);
        if parts.len() == 0 {
            String::new()
        } else if parts.len() == 1 {
            assert(parts@[0]@ == all[0]);
            cat("?", parts[0].as_str())
        } else {
            assert(parts@[0]@ == all[0]);
            assert(parts@[1]@ == all[1]);
            let mut r = cat3_str("?", parts[0].as_str(), "&");
            r.append(parts[1].as_str());
            r
        }
    }
}

fn cat3_str(a: &str, b: &str, c: &str) -> (r: String)
    ensures
        r@ == a@ + b@ + c@,
{
    crate::model::cat3(a, b, c)
}

/// The path of the graph explorer request for a scope.
pub fn graph_explore_path(scope: &ApiScope) -> (r: String)
    ensures
        r@ == "/api/workspace/graph/explore"@ + scope_suffix(scope.repo_id, scope.project_id),
{
    cat("/api/workspace/graph/explore", scope.query_suffix().as_str())
}

/// The path of the picker search for a query: no query string when it is empty.
pub fn graph_picker_path(query: &str) -> (r: String)
    ensures
        r@ == if query@.len() == 0 {
            "/api/workspace/graph/picker"@
        } else {
            "/api/workspace/graph/picker?q="@ + url_encoded(query@)
        },
{
    if query.unicode_len() == 0 {
        own("/api/workspace/graph/picker")
    } else {
        cat("/api/workspace/graph/picker?q=", urlencoding(query).as_str())
    }
}

/// The state of a request that a UI frame polls.
#[derive(Debug, Clone)]
pub enum Promise<T> {
    /// Nothing started yet.
    Idle,
    /// Request in flight.
    Pending,
    /// Response received and parsed.
    Ready(T),
    /// Request or parse failed.
    Failed(String),
}

impl<T> Promise<T> {
    /// Nothing started.
    pub fn idle() -> (r: Promise<T>)
        ensures
            r is Idle,
    {
        Promise::Idle
    }

    /// Takes the value if the promise is ready, leaving it idle; otherwise leaves it as it
    /// is and returns `None`.
    pub fn take(&mut self) -> (r: Option<T>)
        ensures
            *old(self) is Ready ==> r == Some((*old(self))->Ready_0) && *final(self) is Idle,
            !(*old(self) is Ready) ==> r is None && *final(self) == *old(self),
    {
        let mut tmp = Promise::Idle;
        std::mem::swap(self, &mut tmp);
        match tmp {
            Promise::Ready(v) => Some(v),
            other => {
                *self = other;
                None
            },
        }
    }

    /// Whether a request is in flight.
    pub fn is_pending(&self) -> (r: bool)
        ensures
            r == self is Pending,
    {
        match self {
            Promise::Pending => true,
            _ => false,
        }
    }

    /// Whether a result is waiting.
    pub fn is_ready(&self) -> (r: bool)
        ensures
            r == self is Ready,
    {
        match self {
            Promise::Ready(_) => true,
            _ => false,
        }
    }

    /// Whether the request failed.
    pub fn is_failed(&self) -> (r: bool)
        ensures
            r == self is Failed,
    {
        match self {
            Promise::Failed(_) => true,
            _ => false,
        }
    }
}

} // verus!
