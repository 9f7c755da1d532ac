//! Text helpers at the byte/string boundary: UTF-8 conversion of read
//! file contents, and extraction of the final path component that names
//! the file in every chunked write request.

use vstd::prelude::*;
use vstd::utf8::{decode_utf8, valid_utf8};

verus! {

/// The characters after the last `/` of a path: the whole path when it
/// holds no `/`, and empty when it ends with one.
pub open spec fn file_name_chars(s: Seq<char>) -> Seq<char>
    decreases s.len(),
{
    if s.len() == 0 {
        s
    } else if s.last() == '/' {
        Seq::empty()
    } else {
        file_name_chars(s.drop_last()).push(s.last())
    }
}

/// Relies on str::rsplit_once: splits at the last occurrence of the
/// delimiter, here `/`; `None` means the delimiter does not occur.
#[verifier::external_body]
pub(crate) fn name_after_last_slash(path: &str) -> (r: String)
    ensures
        r@ == file_name_chars(path@),
{
    match path.rsplit_once('/') {
        Some((_, name)) => name.to_string(),
        None => path.to_string(),
    }
}

/// Relies on String::from_utf8: succeeds exactly on valid UTF-8, and
/// then decodes the bytes.
#[verifier::external_body]
pub(crate) fn string_from_utf8(bytes: Vec<u8>) -> (r: Option<String>)
    ensures
        r is Some <==> valid_utf8(bytes@),
        r matches Some(s) ==> s@ == decode_utf8(bytes@),
{
    match String::from_utf8(bytes) {
        Ok(s) => Some(s),
        Err(_) => None,
    }
}

/// What String::from_utf8_lossy makes of a byte sequence: a function of
/// the bytes alone.
pub uninterp spec fn lossy_utf8(bytes: Seq<u8>) -> Seq<char>;

/// Relies on String::from_utf8_lossy: the result depends on the bytes
/// alone, and valid UTF-8 comes through unchanged.
#[verifier::external_body]
pub(crate) fn string_from_utf8_lossy(bytes: &[u8]) -> (r: String)
    ensures
        r@ == lossy_utf8(bytes@),
        valid_utf8(bytes@) ==> r@ == decode_utf8(bytes@),
{
    String::from_utf8_lossy(bytes).into_owned()
}

} // verus!
