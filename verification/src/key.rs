//! Public keys, as the host hands them over and as a message carries them.

use vstd::prelude::*;

verus! {

/// What decoding the text `message` as a public key gives: the binary key, or
/// nothing where the text carries none.
///
/// The text is a JSON string that holds the key in base-58, after an optional
/// curve name and a colon.
pub uninterp spec fn decoded_public_key(message: Seq<char>) -> Option<Seq<u8>>;

/// The two binary layouts of a key: a curve tag, then the 32 bytes of an
/// ed25519 key or the 64 bytes of a secp256k1 key.
pub open spec fn well_formed_public_key(key: Seq<u8>) -> bool {
    ||| key.len() == 33 && key[0] == 0
    ||| key.len() == 65 && key[0] == 1
}

/// Decodes `message` with `near_sdk::serde_json::from_str`, as a
/// `near_sdk::json_types::Base58PublicKey`.
///
/// Trusted: the result is [`decoded_public_key`] of the text, and a key that
/// comes out has one of the two layouts of [`well_formed_public_key`], which
/// are the only ones that the decoder builds.
#[verifier::external_body]
pub(crate) fn decode_public_key(message: &str) -> (key: Option<Vec<u8>>)
    ensures
        decoded_public_key(message@) == match key {
            Some(k) => Some(k@),
            None => None,
        },
        key matches Some(k) ==> well_formed_public_key(k@),
{
    match near_sdk::serde_json::from_str::<near_sdk::json_types::Base58PublicKey>(message) {
        Ok(k) => Some(k.into()),
        Err(_) => None,
    }
}

/// A copy of a byte string.
pub(crate) fn copy_bytes(bytes: &Vec<u8>) -> (copy: Vec<u8>)
    ensures
        copy@ == bytes@,
{
    let mut copy: Vec<u8> = Vec::new();
    let mut i: usize = 0;
    while i < bytes.len()
        invariant
            i <= bytes.len(),
            copy@ == bytes@.subrange(0, i as int),
        decreases bytes.len() - i,
    {
        copy.push(bytes[i]);
        assert(bytes@.subrange(0, i as int).push(bytes@[i as int]) =~= bytes@.subrange(
            0,
            i + 1,
        ));
        i += 1;
    }
    assert(bytes@.subrange(0, bytes@.len() as int) =~= bytes@);
    copy
}

} // verus!
