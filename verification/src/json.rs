//! Reading fields of the JSON documents that the chat service sends, through
//! the `gjson` crate.

use vstd::prelude::*;

verus! {

/// What `gjson::get(json, path).i32()` returns.
pub uninterp spec fn gjson_int(json: Seq<char>, path: Seq<char>) -> i32;

/// What `gjson::get(json, path).to_string()` returns.
pub uninterp spec fn gjson_text(json: Seq<char>, path: Seq<char>) -> Seq<char>;

/// The `to_string()` of each item of `gjson::get(json, path).array()`.
pub uninterp spec fn gjson_texts(json: Seq<char>, path: Seq<char>) -> Seq<Seq<char>>;

/// Whether `c` is an ASCII letter.
pub open spec fn is_ascii_letter(c: char) -> bool {
    ('a' <= c && c <= 'z') || ('A' <= c && c <= 'Z')
}

/// A path made of one key of ASCII letters: no separator, wildcard, modifier
/// or query in it.
pub open spec fn is_plain_key(p: Seq<char>) -> bool {
    p.len() > 0 && forall|i: int| 0 <= i < p.len() ==> is_ascii_letter(#[trigger] p[i])
}

/// Calls `gjson::get(json, path).i32()`: the number at `path` as `i32` (0
/// where there is none); a number below `i32::MIN` reads as `i32::MIN`, and
/// one above `i32::MAX` is cut to 2147483648, which wraps to `i32::MIN`. The contract names the result, and states
/// one fact that the crate's source shows: in an empty document, a path of
/// one plain key finds nothing, which reads as 0.
#[verifier::external_body]
pub(crate) fn json_int(json: &str, path: &str) -> (r: i32)
    ensures
        r == gjson_int(json@, path@),
        json@.len() == 0 && is_plain_key(path@) ==> r == 0,
{
    gjson::get(json, path).i32()
}

/// Calls `gjson::get(json, path).to_string()`: the text of the value at
/// `path` (a string unescaped, other values as written, nothing as empty).
/// The contract only names the result. `Value::str()` gives the same text:
/// the crate's `Display` writes `str()`.
#[verifier::external_body]
pub(crate) fn json_text(json: &str, path: &str) -> (r: String)
    ensures
        r@ == gjson_text(json@, path@),
{
    gjson::get(json, path).to_string()
}

/// Calls `gjson::get(json, path).array()` and takes the `to_string()` of each
/// item, in order. The contract only names the result.
#[verifier::external_body]
pub(crate) fn json_texts(json: &str, path: &str) -> (r: Vec<String>)
    ensures
        r@.map_values(|s: String| s@) == gjson_texts(json@, path@),
{
    gjson::get(json, path).array().iter().map(|v| v.to_string()).collect()
}

} // verus!
