//! Derivation of the symmetric key from an identity string.
//!
//! The scheme is deliberately simple and is kept byte for byte so that
//! blobs written earlier stay readable. It is not a key-derivation function
//! in the cryptographic sense: whoever knows the identity knows the key.

use vstd::prelude::*;
use vstd::string::*;

verus! {

/// Length of the symmetric key in bytes.
pub const KEY_LEN: usize = 32;

/// The byte that fills key slot `index` when the identity is too short to
/// reach it.
pub open spec fn padding_byte(index: int) -> u8 {
    ((index * 7 + 42) % 256) as u8
}

/// The byte in slot `index` of the key derived from `identity`.
pub open spec fn key_byte(identity: Seq<u8>, index: int) -> u8 {
    if index < identity.len() {
        identity[index]
    } else {
        padding_byte(index)
    }
}

/// The key derived from the UTF-8 bytes of an identity.
pub open spec fn derived_key(identity: Seq<u8>) -> Seq<u8> {
    Seq::new(KEY_LEN as nat, |i: int| key_byte(identity, i))
}

/// Derives the 32-byte key from `identity`: its first 32 UTF-8 bytes,
/// followed by the padding pattern where the identity is shorter.
pub fn derive_key(identity: &str) -> (key: [u8; 32])
    ensures
        key@ == derived_key(identity.spec_bytes()),
{
    let bytes = identity.as_bytes();
    let mut key = [0u8; 32];
    let mut i: usize = 0;
    while i < 32
        invariant
            i <= 32,
            bytes@ == identity.spec_bytes(),
            forall|j: int| 0 <= j < i ==> key@[j] == key_byte(bytes@, j),
        decreases 32 - i,
    {
        if i < bytes.len() {
            key[i] = bytes[i];
        } else {
            key[i] = ((i * 7 + 42) % 256) as u8;
        }
        i += 1;
    }
    assert(key@ =~= derived_key(identity.spec_bytes()));
    key
}

} // verus!
