//! The digest by which uploaded files are told apart.

use vstd::prelude::*;

verus! {

/// The MD5 digest of `bytes`, written as lower-case hexadecimal.
pub uninterp spec fn md5_hex_of(bytes: Seq<u8>) -> Seq<char>;

/// A lower-case hexadecimal digit.
pub open spec fn is_lower_hex(c: char) -> bool {
    ('0' <= c && c <= '9') || ('a' <= c && c <= 'f')
}

/// Relies on rust-crypto's `Md5` through `Digest::input` and
/// `Digest::result_str`: the 128-bit digest of the bytes fed in, each of its
/// 16 bytes written as two lower-case hexadecimal digits.
#[verifier::external_body]
fn md5_hex(bytes: &[u8]) -> (r: String)
    ensures
        r@ == md5_hex_of(bytes@),
        r@.len() == 32,
        forall|i: int| 0 <= i < r@.len() ==> is_lower_hex(#[trigger] r@[i]),
{
    let mut hasher = crypto::md5::Md5::new();
    crypto::digest::Digest::input(&mut hasher, bytes);
    crypto::digest::Digest::result_str(&mut hasher)
}

/// The digest of a file's contents: 32 lower-case hexadecimal digits.
pub fn get_file_md5(contents: &[u8]) -> (r: String)
    ensures
        r@ == md5_hex_of(contents@),
        r@.len() == 32,
        forall|i: int| 0 <= i < r@.len() ==> is_lower_hex(#[trigger] r@[i]),
{
    md5_hex(contents)
}

} // verus!
