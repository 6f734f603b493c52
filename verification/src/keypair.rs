//! Key-pair generation for the enabled KEMs.

use crate::Kem;
use vstd::prelude::*;

verus! {

/// True iff `private_key` and `public_key` are the canonical byte encodings
/// of one matching key pair of the KEM whose registry value is `kem_id`:
/// exactly what that KEM's key generation produces, with the public half the
/// one that belongs to the private half. The predicate is pinned only by the
/// trusted generator wrappers below and is what the seal contracts quantify
/// over.
pub uninterp spec fn kem_pair(kem_id: u16, private_key: Seq<u8>, public_key: Seq<u8>) -> bool;

/// An encoded key pair, both keys in the KEM's canonical byte encoding.
///
/// The caller owns the pair and is responsible for scrubbing the private-key
/// bytes after use; this layer never validates the encodings (the
/// cryptography library does, on use).
#[derive(Debug, Clone, PartialEq, Eq)]
pub struct Keypair {
    /// The public key for this key pair.
    pub public_key: Vec<u8>,
    /// The private key for this key pair.
    pub private_key: Vec<u8>,
}

impl Keypair {
    /// Generates a key pair for the given KEM; equivalent to
    /// [`gen_keypair`].
    pub fn new(kem: Kem) -> (r: Keypair)
        ensures
            r.private_key@.len() == kem.spec_private_key_len(),
            r.public_key@.len() == kem.spec_public_key_len(),
            kem_pair(kem.spec_numeric_id(), r.private_key@, r.public_key@),
    {
        gen_keypair(kem)
    }

    /// Deconstructs the pair into (private key, public key).
    pub fn into_parts(self) -> (r: (Vec<u8>, Vec<u8>))
        ensures
            r.0@ == self.private_key@,
            r.1@ == self.public_key@,
    {
        (self.private_key, self.public_key)
    }
}

/// Relies on `hpke::kem::DhP256HkdfSha256::gen_keypair_with_rng` (drawing
/// from the thread-local CSPRNG) and `hpke::Serializable::to_bytes`: a fresh
/// matching key pair of DHKEM(P-256, HKDF-SHA256), canonically encoded as 32
/// private-key bytes and 65 public-key bytes (RFC 9180 §7.1). Nothing else
/// is promised of the random result.
#[verifier::external_body]
fn gen_kp_p256() -> (r: (Vec<u8>, Vec<u8>))
    ensures
        r.0@.len() == 32,
        r.1@.len() == 65,
        kem_pair(16, r.0@, r.1@),
{
    let (sk, pk) = <hpke::kem::DhP256HkdfSha256 as hpke::kem::Kem>::gen_keypair_with_rng(
        &mut rand::rng(),
    );
    (hpke::Serializable::to_bytes(&sk).to_vec(), hpke::Serializable::to_bytes(&pk).to_vec())
}

/// Relies on `hpke::kem::X25519HkdfSha256::gen_keypair_with_rng` (drawing
/// from the thread-local CSPRNG) and `hpke::Serializable::to_bytes`: a fresh
/// matching key pair of DHKEM(X25519, HKDF-SHA256), canonically encoded as
/// 32 private-key bytes and 32 public-key bytes (RFC 9180 §7.1). Nothing
/// else is promised of the random result.
#[verifier::external_body]
fn gen_kp_x25519() -> (r: (Vec<u8>, Vec<u8>))
    ensures
        r.0@.len() == 32,
        r.1@.len() == 32,
        kem_pair(32, r.0@, r.1@),
{
    let (sk, pk) = <hpke::kem::X25519HkdfSha256 as hpke::kem::Kem>::gen_keypair_with_rng(
        &mut rand::rng(),
    );
    (hpke::Serializable::to_bytes(&sk).to_vec(), hpke::Serializable::to_bytes(&pk).to_vec())
}

/// Generates a key pair for the given KEM. Generation cannot fail: the two
/// halves come back as one matching pair in the KEM's canonical encoding,
/// with the byte lengths RFC 9180 fixes for it.
pub fn gen_keypair(kem: Kem) -> (r: Keypair)
    ensures
        r.private_key@.len() == kem.spec_private_key_len(),
        r.public_key@.len() == kem.spec_public_key_len(),
        kem_pair(kem.spec_numeric_id(), r.private_key@, r.public_key@),
{
    let (private_key, public_key) = match kem {
        Kem::DhP256HkdfSha256 => gen_kp_p256(),
        Kem::X25519HkdfSha256 => gen_kp_x25519(),
    };
    Keypair { public_key, private_key }
}

impl Kem {
    /// Generates a [`Keypair`] for this KEM.
    pub fn gen_keypair(self) -> (r: Keypair)
        ensures
            r.private_key@.len() == self.spec_private_key_len(),
            r.public_key@.len() == self.spec_public_key_len(),
            kem_pair(self.spec_numeric_id(), r.private_key@, r.public_key@),
    {
        gen_keypair(self)
    }
}

} // verus!
