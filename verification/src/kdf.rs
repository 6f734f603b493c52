//! The enabled key-derivation (KDF) algorithms.

use crate::name::canonical_name;
use crate::name::canonicalize;
use crate::name::matches_alias;
use crate::IdKind;
use crate::IdLookupError;
use vstd::prelude::*;

verus! {

/// A key-derivation function, as per RFC 9180 §7.2.
#[derive(Copy, Clone, Debug, PartialEq, Eq, Structural)]
pub enum Kdf {
    /// HKDF-SHA256.
    Sha256,
    /// HKDF-SHA384.
    Sha384,
    /// HKDF-SHA512.
    Sha512,
}

impl Kdf {
    /// The registry value of this algorithm, fixed by RFC 9180 §7.2.
    pub open spec fn spec_numeric_id(self) -> u16 {
        match self {
            Kdf::Sha256 => 1,
            Kdf::Sha384 => 2,
            Kdf::Sha512 => 3,
        }
    }

    /// Returns this algorithm's registry value.
    #[verifier::when_used_as_spec(spec_numeric_id)]
    pub fn numeric_id(self) -> (r: u16)
        ensures
            r == self.spec_numeric_id(),
    {
        match self {
            Kdf::Sha256 => 1,
            Kdf::Sha384 => 2,
            Kdf::Sha512 => 3,
        }
    }

    /// The identifier the registry value `id` names, if enabled.
    pub open spec fn spec_from_numeric_id(id: u16) -> Result<Kdf, IdLookupError> {
        if id == 1 {
            Ok(Kdf::Sha256)
        } else if id == 2 {
            Ok(Kdf::Sha384)
        } else if id == 3 {
            Ok(Kdf::Sha512)
        } else {
            Err(IdLookupError { kind: IdKind::Kdf })
        }
    }

    /// Looks an algorithm up by its registry value. Succeeds if and only if
    /// `id` is the registry value of an enabled algorithm.
    pub fn from_numeric_id(id: u16) -> (r: Result<Kdf, IdLookupError>)
        ensures
            r == Self::spec_from_numeric_id(id),
    {
        if id == 1 {
            Ok(Kdf::Sha256)
        } else if id == 2 {
            Ok(Kdf::Sha384)
        } else if id == 3 {
            Ok(Kdf::Sha512)
        } else {
            Err(IdLookupError { kind: IdKind::Kdf })
        }
    }

    /// The identifier a canonical name stands for, if any.
    pub open spec fn spec_from_name(s: Seq<char>) -> Option<Kdf> {
        if s == "hkdfsha256"@ || s == "sha256"@ {
            Some(Kdf::Sha256)
        } else if s == "hkdfsha384"@ || s == "sha384"@ {
            Some(Kdf::Sha384)
        } else if s == "hkdfsha512"@ || s == "sha512"@ {
            Some(Kdf::Sha512)
        } else {
            None
        }
    }

    /// Looks an algorithm up by name, case-insensitively (ASCII) and
    /// hyphen-insensitively: `"hkdf-sha256"` and `"SHA256"` both name
    /// HKDF-SHA256. Unrecognized names fail with a lookup error of the KDF
    /// kind.
    pub fn from_str(s: &str) -> (r: Result<Kdf, IdLookupError>)
        ensures
            r == match Self::spec_from_name(canonical_name(s@)) {
                Some(k) => Ok::<Kdf, IdLookupError>(k),
                None => Err::<Kdf, IdLookupError>(IdLookupError { kind: IdKind::Kdf }),
            },
    {
        let v = canonicalize(s);
        if matches_alias(&v, "hkdfsha256") || matches_alias(&v, "sha256") {
            Ok(Kdf::Sha256)
        } else if matches_alias(&v, "hkdfsha384") || matches_alias(&v, "sha384") {
            Ok(Kdf::Sha384)
        } else if matches_alias(&v, "hkdfsha512") || matches_alias(&v, "sha512") {
            Ok(Kdf::Sha512)
        } else {
            Err(IdLookupError { kind: IdKind::Kdf })
        }
    }

    /// The enabled catalog, in ascending registry-id order.
    pub fn all() -> (r: Vec<Kdf>)
        ensures
            r@ =~= seq![Kdf::Sha256, Kdf::Sha384, Kdf::Sha512],
    {
        let mut v: Vec<Kdf> = Vec::new();
        v.push(Kdf::Sha256);
        v.push(Kdf::Sha384);
        v.push(Kdf::Sha512);
        v
    }
}

/// Law: every enabled KDF identifier round-trips through its registry value.
pub proof fn lemma_kdf_id_round_trip(k: Kdf)
    ensures
        Kdf::spec_from_numeric_id(k.spec_numeric_id()) == Ok::<Kdf, IdLookupError>(k),
{
}

} // verus!
