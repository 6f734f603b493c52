//! The enabled authenticated-encryption (AEAD) algorithms.

use crate::name::canonical_name;
use crate::name::canonicalize;
use crate::name::matches_alias;
use crate::IdKind;
use crate::IdLookupError;
use vstd::prelude::*;

verus! {

/// An authenticated encryption with additional data (AEAD) function, as per
/// RFC 9180 §7.3.
#[derive(Copy, Clone, Debug, PartialEq, Eq, Structural)]
pub enum Aead {
    /// AES-128-GCM.
    AesGcm128,
    /// AES-256-GCM.
    AesGcm256,
    /// ChaCha20Poly1305.
    ChaCha20Poly1305,
}

impl Aead {
    /// The registry value of this algorithm, fixed by RFC 9180 §7.3.
    pub open spec fn spec_numeric_id(self) -> u16 {
        match self {
            Aead::AesGcm128 => 1,
            Aead::AesGcm256 => 2,
            Aead::ChaCha20Poly1305 => 3,
        }
    }

    /// The length in bytes of this algorithm's authentication tag
    /// (RFC 9180 §7.3: Nt).
    pub open spec fn spec_tag_len(self) -> nat {
        match self {
            Aead::AesGcm128 => 16,
            Aead::AesGcm256 => 16,
            Aead::ChaCha20Poly1305 => 16,
        }
    }

    /// Returns this algorithm's registry value.
    #[verifier::when_used_as_spec(spec_numeric_id)]
    pub fn numeric_id(self) -> (r: u16)
        ensures
            r == self.spec_numeric_id(),
    {
        match self {
            Aead::AesGcm128 => 1,
            Aead::AesGcm256 => 2,
            Aead::ChaCha20Poly1305 => 3,
        }
    }

    /// The identifier the registry value `id` names, if enabled.
    pub open spec fn spec_from_numeric_id(id: u16) -> Result<Aead, IdLookupError> {
        if id == 1 {
            Ok(Aead::AesGcm128)
        } else if id == 2 {
            Ok(Aead::AesGcm256)
        } else if id == 3 {
            Ok(Aead::ChaCha20Poly1305)
        } else {
            Err(IdLookupError { kind: IdKind::Aead })
        }
    }

    /// Looks an algorithm up by its registry value. Succeeds if and only if
    /// `id` is the registry value of an enabled algorithm.
    pub fn from_numeric_id(id: u16) -> (r: Result<Aead, IdLookupError>)
        ensures
            r == Self::spec_from_numeric_id(id),
    {
        if id == 1 {
            Ok(Aead::AesGcm128)
        } else if id == 2 {
            Ok(Aead::AesGcm256)
        } else if id == 3 {
            Ok(Aead::ChaCha20Poly1305)
        } else {
            Err(IdLookupError { kind: IdKind::Aead })
        }
    }

    /// The identifier a canonical name stands for, if any.
    pub open spec fn spec_from_name(s: Seq<char>) -> Option<Aead> {
        if s == "aesgcm128"@ || s == "aes128gcm"@ {
            Some(Aead::AesGcm128)
        } else if s == "aesgcm256"@ || s == "aes256gcm"@ {
            Some(Aead::AesGcm256)
        } else if s == "chacha20poly1305"@ {
            Some(Aead::ChaCha20Poly1305)
        } else {
            None
        }
    }

    /// Looks an algorithm up by name, case-insensitively (ASCII) and
    /// hyphen-insensitively: `"aes-128-gcm"` and `"AES128GCM"` both name
    /// AES-128-GCM. Unrecognized names fail with a lookup error of the AEAD
    /// kind.
    pub fn from_str(s: &str) -> (r: Result<Aead, IdLookupError>)
        ensures
            r == match Self::spec_from_name(canonical_name(s@)) {
                Some(a) => Ok::<Aead, IdLookupError>(a),
                None => Err::<Aead, IdLookupError>(IdLookupError { kind: IdKind::Aead }),
            },
    {
        let v = canonicalize(s);
        if matches_alias(&v, "aesgcm128") || matches_alias(&v, "aes128gcm") {
            Ok(Aead::AesGcm128)
        } else if matches_alias(&v, "aesgcm256") || matches_alias(&v, "aes256gcm") {
            Ok(Aead::AesGcm256)
        } else if matches_alias(&v, "chacha20poly1305") {
            Ok(Aead::ChaCha20Poly1305)
        } else {
            Err(IdLookupError { kind: IdKind::Aead })
        }
    }

    /// The enabled catalog, in ascending registry-id order.
    pub fn all() -> (r: Vec<Aead>)
        ensures
            r@ =~= seq![Aead::AesGcm128, Aead::AesGcm256, Aead::ChaCha20Poly1305],
    {
        let mut v: Vec<Aead> = Vec::new();
        v.push(Aead::AesGcm128);
        v.push(Aead::AesGcm256);
        v.push(Aead::ChaCha20Poly1305);
        v
    }
}

/// Law: every enabled AEAD identifier round-trips through its registry
/// value.
pub proof fn lemma_aead_id_round_trip(a: Aead)
    ensures
        Aead::spec_from_numeric_id(a.spec_numeric_id()) == Ok::<Aead, IdLookupError>(a),
{
}

} // verus!
