//! The configuration record: one concrete (AEAD, KDF, KEM) triple.

use crate::base_mode_open::spec_open_outcome;
use crate::keypair::kem_pair;
use crate::Aead;
use crate::EncappedKeyAndCiphertext;
use crate::IdKind;
use crate::IdLookupError;
use crate::Kdf;
use crate::Kem;
use crate::OperationError;
use vstd::prelude::*;

verus! {

/// An (AEAD, KDF, KEM) algorithmic triple naming one concrete HPKE
/// instantiation.
///
/// Each field ranges over the enabled catalog of its kind; any combination
/// of enabled identifiers is a legal configuration. A `Config` is a plain
/// value: copied freely, never mutated in place.
#[derive(Copy, Clone, Debug, PartialEq, Eq, Structural)]
pub struct Config {
    /// The authenticated-encryption function to be used.
    pub aead: Aead,
    /// The key-derivation function to be used.
    pub kdf: Kdf,
    /// The key-encapsulation mechanism to be used.
    pub kem: Kem,
}

impl Config {
    /// What converting three raw registry values yields: the triple of the
    /// identifiers they name, or the lookup error of the first field (in the
    /// order AEAD, KDF, KEM) whose value names no enabled algorithm.
    pub open spec fn spec_from_ids(aead_id: u16, kdf_id: u16, kem_id: u16) -> Result<
        Config,
        IdLookupError,
    > {
        match Aead::spec_from_numeric_id(aead_id) {
            Err(e) => Err(e),
            Ok(aead) => match Kdf::spec_from_numeric_id(kdf_id) {
                Err(e) => Err(e),
                Ok(kdf) => match Kem::spec_from_numeric_id(kem_id) {
                    Err(e) => Err(e),
                    Ok(kem) => Ok(Config { aead, kdf, kem }),
                },
            },
        }
    }

    /// Attempts to convert three raw registry values into a configuration.
    /// Succeeds if and only if all three values name enabled algorithms;
    /// otherwise fails with a lookup error naming the first offending field,
    /// in the order AEAD, KDF, KEM.
    pub fn try_from_ids(aead_id: u16, kdf_id: u16, kem_id: u16) -> (r: Result<
        Config,
        IdLookupError,
    >)
        ensures
            r == Self::spec_from_ids(aead_id, kdf_id, kem_id),
    {
        let aead = match Aead::from_numeric_id(aead_id) {
            Ok(a) => a,
            Err(e) => { return Err(e) },
        };
        let kdf = match Kdf::from_numeric_id(kdf_id) {
            Ok(k) => k,
            Err(e) => { return Err(e) },
        };
        let kem = match Kem::from_numeric_id(kem_id) {
            Ok(k) => k,
            Err(e) => { return Err(e) },
        };
        Ok(Config { aead, kdf, kem })
    }

    /// Seals with the algorithms this configuration names; see
    /// [`crate::base_mode_seal`].
    pub fn base_mode_seal(
        &self,
        recipient_public_key: &[u8],
        info: &[u8],
        plaintext: &[u8],
        aad: &[u8],
    ) -> (r: Result<EncappedKeyAndCiphertext, OperationError>)
        ensures
            r matches Ok(b) ==> b.encapped_key@.len() == self.kem.spec_encapped_key_len()
                && b.ciphertext@.len() == plaintext@.len() + self.aead.spec_tag_len(),
            recipient_public_key@.len() != self.kem.spec_public_key_len() ==> r is Err,
            r matches Ok(b) ==> (forall|sk: Seq<u8>|
                #[trigger] kem_pair(self.kem.spec_numeric_id(), sk, recipient_public_key@)
                    ==> spec_open_outcome(*self, sk, b.encapped_key@, info@, b.ciphertext@, aad@)
                    == Some(plaintext@)),
            (exists|sk: Seq<u8>|
                #[trigger] kem_pair(self.kem.spec_numeric_id(), sk, recipient_public_key@))
                && plaintext@.len() < 0x1_0000_0000 ==> r is Ok,
    {
        crate::base_mode_seal(self, recipient_public_key, info, plaintext, aad)
    }

    /// Opens with the algorithms this configuration names; see
    /// [`crate::base_mode_open`].
    ///
    /// Canonical parameter order: private key, encapsulated key, info,
    /// ciphertext, aad.
    pub fn base_mode_open(
        &self,
        private_key: &[u8],
        encapped_key: &[u8],
        info: &[u8],
        ciphertext: &[u8],
        aad: &[u8],
    ) -> (r: Result<Vec<u8>, OperationError>)
        ensures
            r matches Ok(pt) ==> spec_open_outcome(
                *self,
                private_key@,
                encapped_key@,
                info@,
                ciphertext@,
                aad@,
            ) == Some(pt@),
            r is Err ==> spec_open_outcome(
                *self,
                private_key@,
                encapped_key@,
                info@,
                ciphertext@,
                aad@,
            ) is None,
    {
        crate::base_mode_open(self, private_key, encapped_key, info, ciphertext, aad)
    }
}

/// Law: a configuration round-trips through its three registry values.
pub proof fn lemma_config_id_round_trip(c: Config)
    ensures
        Config::spec_from_ids(
            c.aead.spec_numeric_id(),
            c.kdf.spec_numeric_id(),
            c.kem.spec_numeric_id(),
        ) == Ok::<Config, IdLookupError>(c),
{
}

/// Law: a numeric id outside the enabled catalog is rejected with a lookup
/// error naming the field it was passed for, for each of the three
/// positions independently; conversion succeeds exactly when all three ids
/// are enabled.
pub proof fn lemma_unknown_id_rejection(aead_id: u16, kdf_id: u16, kem_id: u16)
    ensures
        Config::spec_from_ids(aead_id, kdf_id, kem_id) is Ok <==> Aead::spec_from_numeric_id(
            aead_id,
        ) is Ok && Kdf::spec_from_numeric_id(kdf_id) is Ok && Kem::spec_from_numeric_id(
            kem_id,
        ) is Ok,
        Aead::spec_from_numeric_id(aead_id) is Err ==> Config::spec_from_ids(
            aead_id,
            kdf_id,
            kem_id,
        ) == Err::<Config, IdLookupError>(IdLookupError { kind: IdKind::Aead }),
        Aead::spec_from_numeric_id(aead_id) is Ok && Kdf::spec_from_numeric_id(kdf_id) is Err
            ==> Config::spec_from_ids(aead_id, kdf_id, kem_id) == Err::<Config, IdLookupError>(
            IdLookupError { kind: IdKind::Kdf },
        ),
        Aead::spec_from_numeric_id(aead_id) is Ok && Kdf::spec_from_numeric_id(kdf_id) is Ok
            && Kem::spec_from_numeric_id(kem_id) is Err ==> Config::spec_from_ids(
            aead_id,
            kdf_id,
            kem_id,
        ) == Err::<Config, IdLookupError>(IdLookupError { kind: IdKind::Kem }),
{
}

} // verus!
