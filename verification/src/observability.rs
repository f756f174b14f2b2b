//! Correlation ids (request, attempt, trace, diagnostic) and the wall clock.
use vstd::prelude::*;

use crate::model::cat;

verus! {

/// A lowercase hexadecimal digit.
pub open spec fn is_hex_lower(c: char) -> bool {
    ('0' <= c && c <= '9') || ('a' <= c && c <= 'f')
}

/// The hyphenated text form of a UUID: 36 characters, `-` at positions 8, 13, 18 and 23,
/// lowercase hexadecimal digits elsewhere.
pub open spec fn is_uuid_text(s: Seq<char>) -> bool {
    &&& s.len() == 36
    &&& forall|i: int|
        0 <= i < 36 ==> (if i == 8 || i == 13 || i == 18 || i == 23 {
            s[i] == '-'
        } else {
            is_hex_lower(#[trigger] s[i])
        })
}

/// The simple text form of a UUID: 32 lowercase hexadecimal digits.
pub open spec fn is_uuid_simple(s: Seq<char>) -> bool {
    &&& s.len() == 32
    &&& forall|i: int| 0 <= i < 32 ==> is_hex_lower(#[trigger] s[i])
}

/// A fresh random version-4 UUID in hyphenated form: `uuid::Uuid::new_v4()` formatted with
/// `Display`, which the crate writes as 36 lowercase characters with hyphens at 8, 13, 18
/// and 23. Which UUID comes back is left open: it comes from the system's random source.
#[verifier::external_body]
pub(crate) fn uuid_v4() -> (r: String)
    ensures
        is_uuid_text(r@),
{
    uuid::Uuid::new_v4().to_string()
}

/// A fresh random version-4 UUID in simple form: `uuid::Uuid::new_v4().simple()` formatted
/// with `Display`, 32 lowercase hexadecimal digits. Which UUID comes back is left open.
#[verifier::external_body]
pub(crate) fn uuid_v4_simple() -> (r: String)
    ensures
        is_uuid_simple(r@),
{
    uuid::Uuid::new_v4().simple().to_string()
}

/// The current time as milliseconds since the Unix epoch:
/// `chrono::Utc::now().timestamp_millis()`. Nothing is promised of the value: it is read
/// from the system clock.
#[verifier::external_body]
pub(crate) fn now_millis() -> (r: i64) {
    chrono::Utc::now().timestamp_millis()
}

/// A fresh HTTP-scoped request id: `req_` followed by a hyphenated UUID.
pub fn new_request_id() -> (r: String)
    ensures
        r@.len() == 40,
        r@.take(4) == "req_"@,
        is_uuid_text(r@.skip(4)),
{
    proof {
        reveal_strlit("req_");
    }
    let u = uuid_v4();
    let r = cat("req_", u.as_str());
    assert(r@.take(4) =~= "req_"@);
    assert(r@.skip(4) =~= u@);
    r
}

/// A fresh workflow attempt id: `att_` followed by a hyphenated UUID.
pub fn new_attempt_id() -> (r: String)
    ensures
        r@.len() == 40,
        r@.take(4) == "att_"@,
        is_uuid_text(r@.skip(4)),
{
    proof {
        reveal_strlit("att_");
    }
    let u = uuid_v4();
    let r = cat("att_", u.as_str());
    assert(r@.take(4) =~= "att_"@);
    assert(r@.skip(4) =~= u@);
    r
}

/// A fresh operator trace id: `tr_` followed by a hyphenated UUID.
pub fn new_trace_id() -> (r: String)
    ensures
        r@.len() == 39,
        r@.take(3) == "tr_"@,
        is_uuid_text(r@.skip(3)),
{
    proof {
        reveal_strlit("tr_");
    }
    let u = uuid_v4();
    let r = cat("tr_", u.as_str());
    assert(r@.take(3) =~= "tr_"@);
    assert(r@.skip(3) =~= u@);
    r
}

/// A fresh user-facing diagnostic id: `diag_` followed by a UUID in simple form.
pub fn new_diagnostic_id() -> (r: String)
    ensures
        r@.len() == 37,
        r@.take(5) == "diag_"@,
        is_uuid_simple(r@.skip(5)),
{
    proof {
        reveal_strlit("diag_");
    }
    let u = uuid_v4_simple();
    let r = cat("diag_", u.as_str());
    assert(r@.take(5) =~= "diag_"@);
    assert(r@.skip(5) =~= u@);
    r
}

} // verus!
