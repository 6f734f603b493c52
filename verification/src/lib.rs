//! Single-shot hybrid public-key encryption (RFC 9180, base mode) with the
//! algorithm suite chosen at run time.
//!
//! A caller picks an authenticated cipher ([`Aead`]), a key-derivation
//! function ([`Kdf`]) and a key-encapsulation mechanism ([`Kem`]) by numeric
//! id or by name, bundles them into a [`Config`], and calls
//! [`base_mode_seal`] or [`base_mode_open`]. The dispatch from the three
//! runtime identifiers to one concrete, monomorphic invocation of the
//! underlying cryptography library is verified: every enabled triple reaches
//! exactly the operation its identifiers name, and nothing else — open's
//! result is pinned to the named outcome of its suite, and every sealed
//! bundle is pinned to open back, under that same suite and any matching
//! private key, to the plaintext it was sealed from.
//!
//! The cryptographic primitives themselves (AES-GCM, ChaCha20Poly1305, HKDF,
//! the Diffie-Hellman KEMs) are supplied by the `hpke` crate and are trusted,
//! not re-implemented.

use vstd::prelude::*;

mod aead;
mod base_mode_open;
mod base_mode_seal;
mod ciphertext;
mod config;
mod kdf;
mod kem;
mod keypair;
mod name;

pub use aead::Aead;
pub use base_mode_open::base_mode_open;
pub use base_mode_open::hpke_open_outcome;
pub use base_mode_open::open_result_agrees;
pub use base_mode_open::spec_open_outcome;
pub use base_mode_seal::base_mode_seal;
pub use ciphertext::EncappedKeyAndCiphertext;
pub use config::Config;
pub use kdf::Kdf;
pub use kem::Kem;
pub use keypair::gen_keypair;
pub use keypair::kem_pair;
pub use keypair::Keypair;
pub use name::canonical_name;
pub use name::fold_char;

verus! {

/// The kind of algorithm identifier a failed lookup was about.
#[derive(Copy, Clone, Debug, PartialEq, Eq, Structural)]
pub enum IdKind {
    /// An authenticated-encryption function id was looked up.
    Aead,
    /// A key-derivation function id was looked up.
    Kdf,
    /// A key-encapsulation mechanism id was looked up.
    Kem,
}

/// A numeric id or name string matched no enabled algorithm.
///
/// Carries only which of the three identifier kinds failed, never any
/// cryptographic detail.
#[derive(Copy, Clone, Debug, PartialEq, Eq, Structural)]
pub struct IdLookupError {
    /// Which identifier kind the failed lookup was parsing.
    pub kind: IdKind,
}

impl IdLookupError {
    /// A short description of the failed lookup, naming the identifier kind
    /// and nothing else.
    pub fn message(&self) -> (r: &'static str)
        ensures
            self.kind == IdKind::Aead ==> r@ == "aead not recognized"@,
            self.kind == IdKind::Kdf ==> r@ == "kdf not recognized"@,
            self.kind == IdKind::Kem ==> r@ == "kem not recognized"@,
    {
        match self.kind {
            IdKind::Aead => "aead not recognized",
            IdKind::Kdf => "kdf not recognized",
            IdKind::Kem => "kem not recognized",
        }
    }
}

/// A seal or open operation failed.
///
/// Deliberately opaque and uniform: it does not say whether a key failed to
/// deserialize, encapsulation failed, or an authentication tag did not
/// verify, so an attacker cannot use the error as a decryption oracle.
#[derive(Copy, Clone, Debug, PartialEq, Eq, Structural)]
pub struct OperationError;

impl OperationError {
    /// The one description every operation failure shares.
    pub fn message(&self) -> (r: &'static str)
        ensures
            r@ == "hpke operation failed"@,
    {
        "hpke operation failed"
    }
}

/// Law (round trip): for every enabled configuration and all info, plaintext
/// and aad byte strings — including empty ones — sealing to a freshly
/// generated key pair and opening the result with the pair's private half
/// returns exactly the plaintext. (The length bound only keeps the plaintext
/// below every enabled AEAD's message limit.)
pub fn seal_open_round_trip(config: &Config, info: &[u8], plaintext: &[u8], aad: &[u8]) -> (r: Vec<
    u8,
>)
    requires
        plaintext@.len() < 0x1_0000_0000,
    ensures
        r@ == plaintext@,
{
    let keypair = gen_keypair(config.kem);
    let sealed = base_mode_seal(config, keypair.public_key.as_slice(), info, plaintext, aad);
    proof {
        assert(kem_pair(
            config.kem.spec_numeric_id(),
            keypair.private_key@,
            keypair.public_key@,
        ));
    }
    let bundle = sealed.unwrap();
    let opened = base_mode_open(
        config,
        keypair.private_key.as_slice(),
        bundle.encapped_key.as_slice(),
        info,
        bundle.ciphertext.as_slice(),
        aad,
    );
    opened.unwrap()
}

/// `hpke::HpkeError`, the error type of the underlying cryptography library,
/// declared opaque so that the trusted wrappers can return it. Verified code
/// never inspects it: it is mapped, uniformly, to [`OperationError`].
#[verifier::external_type_specification]
#[verifier::external_body]
pub struct ExHpkeError(hpke::HpkeError);

} // verus!
