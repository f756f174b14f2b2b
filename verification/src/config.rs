//! Server configuration from its environment settings, and the repo/project scope filter.
use vstd::prelude::*;

use crate::model::{cat, opt_view, own};
use crate::text::{chars_of, decimal, digit};

verus! {

/// Value of a string of decimal digits.
pub open spec fn digits_value(s: Seq<char>) -> nat
    decreases s.len(),
{
    if s.len() == 0 {
        0
    } else {
        digits_value(s.drop_last()) * 10 + (s.last() as nat - '0' as nat) as nat
    }
}

/// All characters are ASCII digits.
pub open spec fn all_digits(s: Seq<char>) -> bool {
    forall|i: int| 0 <= i < s.len() ==> '0' <= #[trigger] s[i] && s[i] <= '9'
}

/// A port number as `str::parse::<u16>` reads it: an optional `+` and then one or more
/// ASCII digits whose value is at most 65535.
pub open spec fn parse_u16_spec(s: Seq<char>) -> Option<u16> {
    let d = if s.len() > 0 && s[0] == '+' {
        s.drop_first()
    } else {
        s
    };
    if d.len() > 0 && all_digits(d) && digits_value(d) <= 65535 {
        Some(digits_value(d) as u16)
    } else {
        None
    }
}

proof fn lemma_digits_value_mono(s: Seq<char>, k: int)
    requires
        0 <= k <= s.len(),
        all_digits(s),
    ensures
        digits_value(s.take(k)) <= digits_value(s),
    decreases s.len() - k,
{
    if k < s.len() {
        lemma_digits_value_mono(s, k + 1);
        assert(s.take(k + 1).drop_last() =~= s.take(k));
        assert('0' <= s[k]);
    } else {
        assert(s.take(k) =~= s);
    }
}

proof fn lemma_decimal_digits(n: nat)
    ensures
        decimal(n).len() > 0,
        all_digits(decimal(n)),
        digits_value(decimal(n)) == n,
    decreases n,
{
    let d = decimal(n);
    if n < 10 {
        assert(d.drop_last() =~= Seq::<char>::empty());
        assert(d.last() == digit(n));
        assert(digit(n) as nat - '0' as nat == n) by {
            assert(('0' as u32) + n < 0xD800);
        }
        assert(digits_value(d) == digits_value(d.drop_last()) * 10 + (d.last() as nat - '0' as nat) as nat);
    } else {
        lemma_decimal_digits(n / 10);
        let prev = decimal(n / 10);
        assert(d == prev.push(digit(n % 10)));
        assert(d.drop_last() =~= prev);
        assert(digit(n % 10) as nat - '0' as nat == n % 10) by {
            assert(('0' as u32) + n % 10 < 0xD800);
        }
        assert((n / 10) * 10 + n % 10 == n) by (nonlinear_arith);
        assert(d.last() == digit(n % 10));
        assert(digits_value(d) == digits_value(prev) * 10 + (d.last() as nat - '0' as nat) as nat);
        assert forall|i: int| 0 <= i < d.len() implies '0' <= #[trigger] d[i] && d[i] <= '9' by {
            if i < prev.len() {
                assert(d[i] == prev[i]);
            }
        }
    }
}

/// A port written in decimal, as the server logs it, reads back as the same port.
pub proof fn lemma_port_reads_back(port: u16)
    ensures
        parse_u16_spec(decimal(port as nat)) == Some(port),
{
    lemma_decimal_digits(port as nat);
    let d = decimal(port as nat);
    assert('0' <= d[0] && d[0] <= '9');
}

/// Parses a port number the way `str::parse::<u16>` does.
pub fn parse_port(s: &str) -> (r: Option<u16>)
    ensures
        r == parse_u16_spec(s@),
{
    let v = chars_of(s);
    let start: usize = if v.len() > 0 && v[0] == '+' {
        1
    } else {
        0
    };
    let ghost d = if s@.len() > 0 && s@[0] == '+' {
        s@.drop_first()
    } else {
        s@
    };
    assert(d =~= v@.skip(start as int));
    if start >= v.len() {
        return None;
    }
    let mut value: u32 = 0;
    let mut i: usize = start;
    while i < v.len()
        invariant
            start <= i <= v@.len(),
            v@ == s@,
            d == v@.skip(start as int),
            d == (if s@.len() > 0 && s@[0] == '+' {
                s@.drop_first()
            } else {
                s@
            }),
            all_digits(d.take(i - start)),
            value == digits_value(d.take(i - start)),
            value <= 65535,
        decreases v@.len() - i,
    {
        let c = v[i];
        assert(d.take(i + 1 - start).drop_last() =~= d.take(i - start));
        assert(d.take(i + 1 - start).last() == c);
        assert(d[i - start] == c);
        if c < '0' || c > '9' {
            assert(!all_digits(d));
            return None;
        }
        let next = value * 10 + ((c as u32) - ('0' as u32));
        assert(digits_value(d.take(i + 1 - start)) == next);
        if next > 65535 {
            proof {
                assert(all_digits(d.take(i + 1 - start)));
                if all_digits(d) {
                    lemma_digits_value_mono(d, i + 1 - start);
                }
            }
            return None;
        }
        value = next;
        i = i + 1;
    }
    assert(d.take(i - start) =~= d);
    Some(value as u16)
}

/// Settings of the workspace server.
#[derive(Debug, Clone)]
pub struct ServerConfig {
    pub port: u16,
    pub store_path: String,
    pub vault_path: String,
    pub dist_path: String,
}

impl ServerConfig {
    /// The configuration from the values of `PORT`, `HOME`, `WORKSPACE_STORE_PATH`,
    /// `WORKSPACE_VAULT_PATH` and `DIST_PATH` (each `None` when unset): port 3031 unless
    /// `PORT` parses, store and vault under `<HOME>/.agentic-memory/` (`HOME` defaulting to
    /// `/tmp`) unless set, and `dist` as the asset directory unless set.
    pub fn from_values(
        port: Option<String>,
        home: Option<String>,
        store_path: Option<String>,
        vault_path: Option<String>,
        dist_path: Option<String>,
    ) -> (r: ServerConfig)
        ensures
            r.port == (match port {
                Some(p) => match parse_u16_spec(p@) {
                    Some(n) => n,
                    None => 3031,
                },
                None => 3031,
            }),
            r.store_path@ == (match opt_view(store_path) {
                Some(s) => s,
                None => home_or_tmp(opt_view(home)) + "/.agentic-memory/workspace-store"@,
            }),
            r.vault_path@ == (match opt_view(vault_path) {
                Some(s) => s,
                None => home_or_tmp(opt_view(home)) + "/.agentic-memory/workspace-vaults"@,
            }),
            r.dist_path@ == (match opt_view(dist_path) {
                Some(s) => s,
                None => "dist"@,
            }),
    {
        let port = match port {
            Some(p) => match parse_port(p.as_str()) {
                Some(n) => n,
                None => 3031,
            },
            None => 3031,
        };
        let home = match home {
            Some(h) => h,
            None => own("/tmp"),
        };
        let store_path = match store_path {
            Some(s) => s,
            None => cat(home.as_str(), "/.agentic-memory/workspace-store"),
        };
        let vault_path = match vault_path {
            Some(s) => s,
            None => cat(home.as_str(), "/.agentic-memory/workspace-vaults"),
        };
        let dist_path = match dist_path {
            Some(s) => s,
            None => own("dist"),
        };
        ServerConfig { port, store_path, vault_path, dist_path }
    }
}

/// The home directory, `/tmp` when unset.
pub open spec fn home_or_tmp(home: Option<Seq<char>>) -> Seq<char> {
    match home {
        Some(h) => h,
        None => "/tmp"@,
    }
}

/// Repo and project scope of graph and workspace requests.
#[derive(Debug, Clone)]
pub struct ScopeFilter {
    pub repo_id: Option<String>,
    pub project_id: Option<String>,
}

impl ScopeFilter {
    /// Whether neither a repo nor a project is given.
    pub fn is_empty(&self) -> (r: bool)
        ensures
            r == (self.repo_id is None && self.project_id is None),
    {
        self.repo_id.is_none() && self.project_id.is_none()
    }
}

} // verus!
