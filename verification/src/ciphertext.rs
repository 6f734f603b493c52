//! The bundled output of a seal operation.

use vstd::prelude::*;

verus! {

/// The combined encapsulated key and ciphertext returned by seal.
#[derive(Debug, Clone, PartialEq, Eq)]
pub struct EncappedKeyAndCiphertext {
    /// The encapsulated ephemeral key, in the KEM's canonical encoding.
    pub encapped_key: Vec<u8>,
    /// The ciphertext: the plaintext encrypted under the derived key,
    /// followed by one AEAD authentication tag.
    pub ciphertext: Vec<u8>,
}

impl EncappedKeyAndCiphertext {
    /// Deconstructs the bundle into (encapsulated key, ciphertext).
    pub fn into_parts(self) -> (r: (Vec<u8>, Vec<u8>))
        ensures
            r.0@ == self.encapped_key@,
            r.1@ == self.ciphertext@,
    {
        (self.encapped_key, self.ciphertext)
    }
}

} // verus!
