//! The symmetric cipher under a shared secret.
//!
//! Both peers hold the same secret text. The cipher itself is the
//! `magic-crypt` crate's 256-bit one: the functions here only say what the
//! rest of the library relies on.

use magic_crypt::{MagicCrypt256, MagicCryptTrait};
use vstd::prelude::*;

verus! {

/// `magic_crypt::MagicCryptError`, with which decryption fails. Nothing is said
/// of what it holds.
#[verifier::external_type_specification]
#[verifier::external_body]
pub struct ExMagicCryptError(magic_crypt::MagicCryptError);

/// The ciphertext of `plain` under the secret `key`: what
/// `MagicCryptTrait::encrypt_bytes_to_bytes` returns for `plain` on the
/// `MagicCrypt256` that is made of `key`.
pub uninterp spec fn encrypted(key: Seq<char>, plain: Seq<u8>) -> Seq<u8>;

/// The plaintext of `cipher` under the secret `key`, or `None` where `cipher`
/// does not decrypt under it: what `MagicCryptTrait::decrypt_bytes_to_bytes`
/// returns for `cipher` on the `MagicCrypt256` that is made of `key`.
pub uninterp spec fn decrypted(key: Seq<char>, cipher: Seq<u8>) -> Option<Seq<u8>>;

/// Encrypts `plain` with `MagicCrypt256::new(key, None)` and
/// `MagicCryptTrait::encrypt_bytes_to_bytes`. The cipher is built from the
/// secret alone (its hash is the key, the initial vector is fixed), so the
/// ciphertext depends on nothing but `key` and `plain`; and what was
/// encrypted under a secret decrypts under the same secret to what it was.
#[verifier::external_body]
pub(crate) fn encrypt(key: &str, plain: &[u8]) -> (r: Vec<u8>)
    ensures
        r@ == encrypted(key@, plain@),
        decrypted(key@, r@) == Some(plain@),
{
    MagicCrypt256::new(key, None::<&str>).encrypt_bytes_to_bytes(plain)
}

/// Decrypts `cipher` with `MagicCrypt256::new(key, None)` and
/// `MagicCryptTrait::decrypt_bytes_to_bytes`, which fails where the length is
/// no multiple of the block size or the padding found is malformed.
#[verifier::external_body]
pub(crate) fn decrypt(key: &str, cipher: &[u8]) -> (r: Result<Vec<u8>, magic_crypt::MagicCryptError>)
    ensures
        r is Ok <==> decrypted(key@, cipher@) is Some,
        r matches Ok(plain) ==> decrypted(key@, cipher@) == Some(plain@),
{
    MagicCrypt256::new(key, None::<&str>).decrypt_bytes_to_bytes(cipher)
}

} // verus!
