//! Making a cipher key: sixty-four random bytes, read as a text.
//!
//! A key is a text, so the bytes have to spell one. The bytes are drawn from
//! one to two hundred and fifty-four, and most draws spell none; then there
//! is no key.

use rand::Rng;
use crate::wire::text_from_utf8;
use vstd::prelude::*;
use vstd::utf8::{decode_utf8, decode_utf8_encode_utf8, encode_utf8, valid_utf8};

verus! {

/// The number of bytes in a key.
pub const KEY_BYTES: usize = 64;

/// Whether bytes can be those of a key: there are sixty-four of them, none
/// is zero and none is two hundred and fifty-five.
pub open spec fn key_material(bytes: Seq<u8>) -> bool {
    &&& bytes.len() == KEY_BYTES
    &&& forall|i: int| 0 <= i < bytes.len() ==> 1 <= #[trigger] bytes[i] < 255
}

/// Draws one byte with `rand::thread_rng` and `Rng::gen_range(1..255)`. The
/// byte is random: all that holds of it is that it lies in the range, the
/// lower end included and the upper end not.
#[verifier::external_body]
fn random_byte() -> (r: u8)
    ensures
        1 <= r < 255,
{
    rand::thread_rng().gen_range(1..255)
}

/// Draws the bytes of a key.
pub fn random_key_bytes() -> (r: Vec<u8>)
    ensures
        key_material(r@),
{
    let mut bytes: Vec<u8> = Vec::with_capacity(KEY_BYTES);
    let mut i: usize = 0;
    while i < KEY_BYTES
        invariant
            i <= KEY_BYTES,
            bytes@.len() == i,
            forall|j: int| 0 <= j < i ==> 1 <= #[trigger] bytes@[j] < 255,
        decreases KEY_BYTES - i,
    {
        bytes.push(random_byte());
        i += 1;
    }
    bytes
}

/// The text that `bytes` spell: the one whose UTF-8 form they are, or `None`
/// where they are no well-formed UTF-8.
pub open spec fn spelled(bytes: Seq<u8>) -> Option<Seq<char>> {
    if valid_utf8(bytes) {
        Some(decode_utf8(bytes))
    } else {
        None
    }
}

/// The text of a key, if there is a key.
pub open spec fn key_text(key: Option<String>) -> Option<Seq<char>> {
    match key {
        Some(text) => Some(text@),
        None => None,
    }
}

/// The key that `bytes` spell: the text whose UTF-8 form they are, or `None`
/// where they are no well-formed UTF-8.
pub fn key_from_bytes(bytes: Vec<u8>) -> (r: Option<String>)
    ensures
        key_text(r) == spelled(bytes@),
        r is Some <==> valid_utf8(bytes@),
        r matches Some(key) ==> key@ == decode_utf8(bytes@) && encode_utf8(key@) == bytes@,
{
    proof {
        if valid_utf8(bytes@) {
            decode_utf8_encode_utf8(bytes@);
        }
    }
    match text_from_utf8(bytes) {
        Ok(key) => Some(key),
        Err(_) => None,
    }
}

/// Generates a 256-bit cipher key: draws the bytes and reads them as a text.
/// The result is what the bytes drawn spell: a key of sixty-four bytes where
/// they spell a text, and `None` where they spell none. Which bytes are
/// drawn is left to chance; that they are the bytes of a key is not.
pub fn generate_key() -> (r: Option<String>)
    ensures
        exists|drawn: Seq<u8>| #[trigger] key_material(drawn) && key_text(r) == spelled(drawn),
        r matches Some(key) ==> key_material(encode_utf8(key@)),
{
    let drawn = random_key_bytes();
    let ghost bytes = drawn@;
    let key = key_from_bytes(drawn);
    assert(key_material(bytes) && key_text(key) == spelled(bytes));
    key
}

} // verus!
