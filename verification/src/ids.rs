//! Stable primary keys of the code graph: SHA-256 and MD5 digests in lowercase hex, and
//! the file, document, function, class and chunk ids built from them.
use vstd::prelude::*;

use crate::model::{cat, cat3};
use crate::observability::is_hex_lower;

verus! {

/// The SHA-256 digest of the UTF-8 encoding of `text`, in lowercase hex.
pub uninterp spec fn sha256_hex_of(text: Seq<char>) -> Seq<char>;

/// The MD5 digest of `bytes`, in lowercase hex.
pub uninterp spec fn md5_hex_of(bytes: Seq<u8>) -> Seq<char>;

/// `n` lowercase hexadecimal digits.
pub open spec fn is_hex_of_len(s: Seq<char>, n: nat) -> bool {
    &&& s.len() == n
    &&& forall|i: int| 0 <= i < s.len() ==> is_hex_lower(#[trigger] s[i])
}

/// SHA-256 of the UTF-8 bytes of `text` (`sha2::Sha256::digest`), formatted with `{:x}`,
/// which writes each of the 32 digest bytes as two lowercase hex digits.
#[verifier::external_body]
pub(crate) fn sha256_hex_utf8(text: &str) -> (r: String)
    ensures
        r@ == sha256_hex_of(text@),
        is_hex_of_len(r@, 64),
{
    format!("{:x}", <sha2::Sha256 as sha2::Digest>::digest(text.as_bytes()))
}

/// MD5 of `bytes` (`md5::Md5::digest` of the `md-5` crate), each of the 16 digest bytes
/// written as two lowercase hex digits.
#[verifier::external_body]
pub(crate) fn md5_hex(bytes: &[u8]) -> (r: String)
    ensures
        r@ == md5_hex_of(bytes@),
        is_hex_of_len(r@, 32),
{
    let d = <md5::Md5 as md5::Digest>::digest(bytes);
    d.iter().map(|b| format!("{:02x}", b)).collect()
}

/// `prefix` followed by the SHA-256 of `a:b`.
pub open spec fn keyed(prefix: Seq<char>, a: Seq<char>, b: Seq<char>) -> Seq<char> {
    prefix + sha256_hex_of(a + ":"@ + b)
}

fn keyed_exec(prefix: &str, a: &str, b: &str) -> (r: String)
    ensures
        r@ == keyed(prefix@, a@, b@),
{
    let text = cat3(a, ":", b);
    cat(prefix, sha256_hex_utf8(text.as_str()).as_str())
}

/// The id of a file: `file:` and the SHA-256 of `repo_id:rel_path`.
pub fn file_id(repo_id: &str, rel_path: &str) -> (r: String)
    ensures
        r@ == keyed("file:"@, repo_id@, rel_path@),
{
    keyed_exec("file:", repo_id, rel_path)
}

/// The id of a code document: `code-document:` and the SHA-256 of `repo_id:rel_path`.
pub fn document_id(repo_id: &str, rel_path: &str) -> (r: String)
    ensures
        r@ == keyed("code-document:"@, repo_id@, rel_path@),
{
    keyed_exec("code-document:", repo_id, rel_path)
}

/// The id of a function: `function:` and the SHA-256 of `repo_id:signature`.
pub fn function_id(repo_id: &str, signature: &str) -> (r: String)
    ensures
        r@ == keyed("function:"@, repo_id@, signature@),
{
    keyed_exec("function:", repo_id, signature)
}

/// The id of a class: `class:` and the SHA-256 of `repo_id:signature`.
pub fn class_id(repo_id: &str, signature: &str) -> (r: String)
    ensures
        r@ == keyed("class:"@, repo_id@, signature@),
{
    keyed_exec("class:", repo_id, signature)
}

/// The id of a chunk: `chunk:` and the SHA-256 of
/// `repo_id:target_kind:target_signature:text`.
pub fn chunk_id(repo_id: &str, target_kind: &str, target_signature: &str, text: &str) -> (r: String)
    ensures
        r@ == "chunk:"@ + sha256_hex_of(
            repo_id@ + ":"@ + target_kind@ + ":"@ + target_signature@ + ":"@ + text@,
        ),
{
    let mut t = cat3(repo_id, ":", target_kind);
    t.append(":");
    t.append(target_signature);
    t.append(":");
    t.append(text);
    cat("chunk:", sha256_hex_utf8(t.as_str()).as_str())
}

} // verus!
