use sha1::Digest;
use vstd::prelude::*;

verus! {

/// The 160-bit SHA-1 digest of a byte sequence, as computed by the `sha1` crate.
pub uninterp spec fn sha1_of(data: Seq<u8>) -> Seq<u8>;

/// The lowercase hexadecimal digit for a value below 16.
pub open spec fn hex_digit(d: u8) -> char {
    if d < 10 {
        (d + 48) as u32 as char
    } else {
        (d + 87) as u32 as char
    }
}

/// Lowercase hexadecimal text of a byte sequence: two digits per byte, high nibble first.
pub open spec fn hex_lower(b: Seq<u8>) -> Seq<char> {
    Seq::new(
        2 * b.len(),
        |i: int|
            if i % 2 == 0 {
                hex_digit(b[i / 2] / 16)
            } else {
                hex_digit(b[i / 2] % 16)
            },
    )
}

/// Relies on `sha1::Sha1` (via `digest::Digest`): the finalized output is 20 bytes and
/// depends on the input bytes alone.
#[verifier::external_body]
fn sha1_bytes(data: &[u8]) -> (r: Vec<u8>)
    ensures
        r@ == sha1_of(data@),
        r@.len() == 20,
{
    let mut hasher = sha1::Sha1::new();
    hasher.update(data);
    hasher.finalize().to_vec()
}

/// Relies on `hex::encode`: each byte becomes two lowercase hexadecimal digits, high nibble first.
#[verifier::external_body]
fn hex_encode(data: &[u8]) -> (r: String)
    ensures
        r@ == hex_lower(data@),
{
    hex::encode(data)
}

/// Lowercase hexadecimal SHA-1 digest of `data`.
pub fn sha1_hex(data: &[u8]) -> (r: String)
    ensures
        r@ == hex_lower(sha1_of(data@)),
        r@.len() == 40,
{
    let raw = sha1_bytes(data);
    hex_encode(raw.as_slice())
}

/// Case-sensitive comparison of a computed digest against an expected one.
pub fn digest_matches(actual: &String, expected: &String) -> (r: bool)
    ensures
        r == (actual@ == expected@),
{
    actual.eq(expected)
}

/// Why a local file's bytes could not be had.
#[derive(Clone, Copy, Debug, PartialEq, Eq, Structural)]
pub enum ReadFailure {
    /// The file could not be opened.
    NotFound,
    /// Reading the opened file failed.
    ReadError,
}

/// The text reported for a local file's digest: its lowercase hexadecimal SHA-1, or
/// `FILE_NOT_FOUND` / `READ_ERROR` when its bytes could not be had.
pub fn file_digest_text(contents: Result<Vec<u8>, ReadFailure>) -> (r: String)
    ensures
        match contents {
            Ok(data) => r@ == hex_lower(sha1_of(data@)) && r@.len() == 40,
            Err(ReadFailure::NotFound) => r@ == "FILE_NOT_FOUND"@,
            Err(ReadFailure::ReadError) => r@ == "READ_ERROR"@,
        },
{
    match contents {
        Ok(data) => sha1_hex(data.as_slice()),
        Err(ReadFailure::NotFound) => String::from_str("FILE_NOT_FOUND"),
        Err(ReadFailure::ReadError) => String::from_str("READ_ERROR"),
    }
}

} // verus!
