//! Content checksums for chunked writes: MD5 digests rendered as
//! lowercase hexadecimal, exactly as the device expects them.

use vstd::prelude::*;

verus! {

/// The MD5 digest of a byte sequence.  The digest function itself is an
/// outside computation; contracts only ever compare results of this
/// function, never state what it is on given values.
pub uninterp spec fn md5_of(data: Seq<u8>) -> Seq<u8>;

/// The lowercase hexadecimal digit for a value below sixteen.
pub open spec fn hex_digit(v: u8) -> char {
    match v {
        0 => '0',
        1 => '1',
        2 => '2',
        3 => '3',
        4 => '4',
        5 => '5',
        6 => '6',
        7 => '7',
        8 => '8',
        9 => '9',
        10 => 'a',
        11 => 'b',
        12 => 'c',
        13 => 'd',
        14 => 'e',
        15 => 'f',
        _ => '0',
    }
}

/// The lowercase hexadecimal rendering of a byte sequence: two digits per
/// byte, high nibble first, in order.
pub open spec fn hex_of(bytes: Seq<u8>) -> Seq<char> {
    Seq::new(
        bytes.len() * 2,
        |i: int|
            if i % 2 == 0 {
                hex_digit(bytes[i / 2] / 16)
            } else {
                hex_digit(bytes[i / 2] % 16)
            },
    )
}

/// Relies on md5::compute: the digest is a function of the input bytes
/// alone and is sixteen bytes long.
#[verifier::external_body]
fn md5_digest(data: &[u8]) -> (r: Vec<u8>)
    ensures
        r@ == md5_of(data@),
        r@.len() == 16,
{
    md5::compute(data).0.to_vec()
}

/// Relies on hex::encode: two lowercase hexadecimal digits per input
/// byte, in order.
#[verifier::external_body]
fn hex_encode(data: &[u8]) -> (r: String)
    ensures
        r@ == hex_of(data@),
{
    hex::encode(data)
}

/// The lowercase hexadecimal MD5 digest of a chunk, as carried in the
/// checksum field of every chunked write request.
pub fn chunk_md5(data: &[u8]) -> (r: String)
    ensures
        r@ == hex_of(md5_of(data@)),
        r@.len() == 32,
{
    let digest = md5_digest(data);
    hex_encode(digest.as_slice())
}

} // verus!
