//! The enabled key-encapsulation mechanisms (KEMs).

use crate::name::canonical_name;
use crate::name::canonicalize;
use crate::name::matches_alias;
use crate::IdKind;
use crate::IdLookupError;
use vstd::prelude::*;

verus! {

/// An asymmetric key-encapsulation mechanism, as per RFC 9180 §7.1.
///
/// The enabled catalog is the build-time subset of the registry that the
/// dispatch engine carries a branch for: DHKEM(P-256, HKDF-SHA256) and
/// DHKEM(X25519, HKDF-SHA256).
#[derive(Copy, Clone, Debug, PartialEq, Eq, Structural)]
pub enum Kem {
    /// DHKEM(P-256, HKDF-SHA256).
    DhP256HkdfSha256,
    /// DHKEM(X25519, HKDF-SHA256).
    X25519HkdfSha256,
}

impl Kem {
    /// The registry value of this mechanism, fixed by RFC 9180 §7.1.
    pub open spec fn spec_numeric_id(self) -> u16 {
        match self {
            Kem::DhP256HkdfSha256 => 16,
            Kem::X25519HkdfSha256 => 32,
        }
    }

    /// The length in bytes of an encoded public key for this mechanism
    /// (RFC 9180 §7.1: Npk).
    pub open spec fn spec_public_key_len(self) -> nat {
        match self {
            Kem::DhP256HkdfSha256 => 65,
            Kem::X25519HkdfSha256 => 32,
        }
    }

    /// The length in bytes of an encoded private key for this mechanism
    /// (RFC 9180 §7.1: Nsk).
    pub open spec fn spec_private_key_len(self) -> nat {
        match self {
            Kem::DhP256HkdfSha256 => 32,
            Kem::X25519HkdfSha256 => 32,
        }
    }

    /// The length in bytes of an encapsulated key for this mechanism
    /// (RFC 9180 §7.1: Nenc).
    pub open spec fn spec_encapped_key_len(self) -> nat {
        match self {
            Kem::DhP256HkdfSha256 => 65,
            Kem::X25519HkdfSha256 => 32,
        }
    }

    /// Returns this mechanism's registry value.
    #[verifier::when_used_as_spec(spec_numeric_id)]
    pub fn numeric_id(self) -> (r: u16)
        ensures
            r == self.spec_numeric_id(),
    {
        match self {
            Kem::DhP256HkdfSha256 => 16,
            Kem::X25519HkdfSha256 => 32,
        }
    }

    /// The identifier the registry value `id` names, if enabled.
    pub open spec fn spec_from_numeric_id(id: u16) -> Result<Kem, IdLookupError> {
        if id == 16 {
            Ok(Kem::DhP256HkdfSha256)
        } else if id == 32 {
            Ok(Kem::X25519HkdfSha256)
        } else {
            Err(IdLookupError { kind: IdKind::Kem })
        }
    }

    /// Looks a mechanism up by its registry value. Succeeds if and only if
    /// `id` is the registry value of an enabled mechanism.
    pub fn from_numeric_id(id: u16) -> (r: Result<Kem, IdLookupError>)
        ensures
            r == Self::spec_from_numeric_id(id),
    {
        if id == 16 {
            Ok(Kem::DhP256HkdfSha256)
        } else if id == 32 {
            Ok(Kem::X25519HkdfSha256)
        } else {
            Err(IdLookupError { kind: IdKind::Kem })
        }
    }

    /// The identifier a canonical name stands for, if any.
    pub open spec fn spec_from_name(s: Seq<char>) -> Option<Kem> {
        if s == "p256sha256"@ || s == "dhkemp256hkdfsha256"@ || s == "p256hkdfsha256"@ || s
            == "dhkem(p256, hkdfsha256)"@ {
            Some(Kem::DhP256HkdfSha256)
        } else if s == "x25519sha256"@ || s == "dhkemx25519hkdfsha256"@ || s
            == "x25519hkdfsha256"@ || s == "dhkem(x25519, hkdfsha256)"@ {
            Some(Kem::X25519HkdfSha256)
        } else {
            None
        }
    }

    /// Looks a mechanism up by name, case-insensitively (ASCII) and
    /// hyphen-insensitively: `"DHKEM-X25519-HKDF-SHA256"` and
    /// `"x25519hkdfsha256"` both name DHKEM(X25519, HKDF-SHA256).
    /// Unrecognized names fail with a lookup error of the KEM kind.
    pub fn from_str(s: &str) -> (r: Result<Kem, IdLookupError>)
        ensures
            r == match Self::spec_from_name(canonical_name(s@)) {
                Some(k) => Ok::<Kem, IdLookupError>(k),
                None => Err::<Kem, IdLookupError>(IdLookupError { kind: IdKind::Kem }),
            },
    {
        let v = canonicalize(s);
        if matches_alias(&v, "p256sha256") || matches_alias(&v, "dhkemp256hkdfsha256")
            || matches_alias(&v, "p256hkdfsha256") || matches_alias(&v, "dhkem(p256, hkdfsha256)") {
            Ok(Kem::DhP256HkdfSha256)
        } else if matches_alias(&v, "x25519sha256") || matches_alias(&v, "dhkemx25519hkdfsha256")
            || matches_alias(&v, "x25519hkdfsha256") || matches_alias(
            &v,
            "dhkem(x25519, hkdfsha256)",
        ) {
            Ok(Kem::X25519HkdfSha256)
        } else {
            Err(IdLookupError { kind: IdKind::Kem })
        }
    }

    /// The enabled catalog, in ascending registry-id order.
    pub fn all() -> (r: Vec<Kem>)
        ensures
            r@ =~= seq![Kem::DhP256HkdfSha256, Kem::X25519HkdfSha256],
    {
        let mut v: Vec<Kem> = Vec::new();
        v.push(Kem::DhP256HkdfSha256);
        v.push(Kem::X25519HkdfSha256);
        v
    }
}

/// Law: every enabled KEM identifier round-trips through its registry value.
pub proof fn lemma_kem_id_round_trip(k: Kem)
    ensures
        Kem::spec_from_numeric_id(k.spec_numeric_id()) == Ok::<Kem, IdLookupError>(k),
{
}

} // verus!
