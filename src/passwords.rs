use vstd::prelude::*;
use crate::ids::is_lower_hex;

verus! {

/// The lowercase hexadecimal SHA-512 digest of the UTF-8 bytes of a password.
pub uninterp spec fn sha512_hex_of(password: Seq<char>) -> Seq<char>;

/// Relies on `sha2::Sha512::digest` and the lowercase hex formatting of its
/// 64-byte output (generic-array's `LowerHex`: two digits per byte): the stored
/// form of a password, which depends on the password alone.
#[verifier::external_body]
pub fn hash_password(password: &str) -> (r: String)
    ensures
        r@ == sha512_hex_of(password@),
        r@.len() == 128,
        forall|i: int| 0 <= i < r@.len() ==> is_lower_hex(#[trigger] r@[i]),
{
    format!("{:x}", <sha2::Sha512 as sha2::Digest>::digest(password.as_bytes()))
}

} // verus!
