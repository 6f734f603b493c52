//! The open operation: decapsulate, then decrypt and verify.

use crate::Aead;
use crate::Config;
use crate::Kdf;
use crate::Kem;
use crate::OperationError;
use vstd::prelude::*;

verus! {

/// What `hpke::single_shot_open` returns in base mode for the cipher suite
/// named by the three registry values and the given inputs: the plaintext on
/// success, nothing on any failure (malformed key bytes, decapsulation
/// failure, or an authentication tag that does not verify). The outcome is a
/// function of the arguments alone.
pub uninterp spec fn hpke_open_outcome(
    aead_id: u16,
    kdf_id: u16,
    kem_id: u16,
    private_key: Seq<u8>,
    encapped_key: Seq<u8>,
    info: Seq<u8>,
    ciphertext: Seq<u8>,
    aad: Seq<u8>,
) -> Option<Seq<u8>>;

/// The named open outcome for a configuration and these inputs.
pub open spec fn spec_open_outcome(
    config: Config,
    private_key: Seq<u8>,
    encapped_key: Seq<u8>,
    info: Seq<u8>,
    ciphertext: Seq<u8>,
    aad: Seq<u8>,
) -> Option<Seq<u8>> {
    hpke_open_outcome(
        config.aead.spec_numeric_id(),
        config.kdf.spec_numeric_id(),
        config.kem.spec_numeric_id(),
        private_key,
        encapped_key,
        info,
        ciphertext,
        aad,
    )
}

/// True iff the result of an open call agrees with the named outcome `o`:
/// `Ok` exactly when `o` holds a plaintext, and then with those very bytes.
pub open spec fn open_result_agrees(r: Result<Vec<u8>, hpke::HpkeError>, o: Option<Seq<u8>>) -> bool {
    match r {
        Ok(pt) => o == Some(pt@),
        Err(_) => o is None,
    }
}

/// Relies on `hpke::single_shot_open` with AES-128-GCM, HKDF-SHA256 and
/// DHKEM(P-256, HKDF-SHA256) in base mode: it deserializes the private and
/// encapsulated keys, decapsulates, re-derives the key schedule bound to
/// `info`, and decrypts, verifying the tag over `aad`; the result is a
/// function of the arguments alone.
#[verifier::external_body]
fn open_aes128_sha256_p256(
    private_key: &[u8],
    encapped_key: &[u8],
    info: &[u8],
    ciphertext: &[u8],
    aad: &[u8],
) -> (r: Result<Vec<u8>, hpke::HpkeError>)
    ensures
        open_result_agrees(
            r,
            hpke_open_outcome(1, 1, 16, private_key@, encapped_key@, info@, ciphertext@, aad@),
        ),
{
    let sk = <<hpke::kem::DhP256HkdfSha256 as hpke::Kem>::PrivateKey as hpke::Deserializable>::from_bytes(
        private_key,
    )?;
    let ek = <<hpke::kem::DhP256HkdfSha256 as hpke::Kem>::EncappedKey as hpke::Deserializable>::from_bytes(
        encapped_key,
    )?;
    hpke::single_shot_open::<hpke::aead::AesGcm128, hpke::kdf::HkdfSha256, hpke::kem::DhP256HkdfSha256>(
        &hpke::OpModeR::Base,
        &sk,
        &ek,
        info,
        ciphertext,
        aad,
    )
}

/// Relies on `hpke::single_shot_open` with AES-128-GCM, HKDF-SHA256 and
/// DHKEM(X25519, HKDF-SHA256) in base mode: it deserializes the private and
/// encapsulated keys, decapsulates, re-derives the key schedule bound to
/// `info`, and decrypts, verifying the tag over `aad`; the result is a
/// function of the arguments alone.
#[verifier::external_body]
fn open_aes128_sha256_x25519(
    private_key: &[u8],
    encapped_key: &[u8],
    info: &[u8],
    ciphertext: &[u8],
    aad: &[u8],
) -> (r: Result<Vec<u8>, hpke::HpkeError>)
    ensures
        open_result_agrees(
            r,
            hpke_open_outcome(1, 1, 32, private_key@, encapped_key@, info@, ciphertext@, aad@),
        ),
{
    let sk = <<hpke::kem::X25519HkdfSha256 as hpke::Kem>::PrivateKey as hpke::Deserializable>::from_bytes(
        private_key,
    )?;
    let ek = <<hpke::kem::X25519HkdfSha256 as hpke::Kem>::EncappedKey as hpke::Deserializable>::from_bytes(
        encapped_key,
    )?;
    hpke::single_shot_open::<hpke::aead::AesGcm128, hpke::kdf::HkdfSha256, hpke::kem::X25519HkdfSha256>(
        &hpke::OpModeR::Base,
        &sk,
        &ek,
        info,
        ciphertext,
        aad,
    )
}

/// Relies on `hpke::single_shot_open` with AES-128-GCM, HKDF-SHA384 and
/// DHKEM(P-256, HKDF-SHA256) in base mode: it deserializes the private and
/// encapsulated keys, decapsulates, re-derives the key schedule bound to
/// `info`, and decrypts, verifying the tag over `aad`; the result is a
/// function of the arguments alone.
#[verifier::external_body]
fn open_aes128_sha384_p256(
    private_key: &[u8],
    encapped_key: &[u8],
    info: &[u8],
    ciphertext: &[u8],
    aad: &[u8],
) -> (r: Result<Vec<u8>, hpke::HpkeError>)
    ensures
        open_result_agrees(
            r,
            hpke_open_outcome(1, 2, 16, private_key@, encapped_key@, info@, ciphertext@, aad@),
        ),
{
    let sk = <<hpke::kem::DhP256HkdfSha256 as hpke::Kem>::PrivateKey as hpke::Deserializable>::from_bytes(
        private_key,
    )?;
    let ek = <<hpke::kem::DhP256HkdfSha256 as hpke::Kem>::EncappedKey as hpke::Deserializable>::from_bytes(
        encapped_key,
    )?;
    hpke::single_shot_open::<hpke::aead::AesGcm128, hpke::kdf::HkdfSha384, hpke::kem::DhP256HkdfSha256>(
        &hpke::OpModeR::Base,
        &sk,
        &ek,
        info,
        ciphertext,
        aad,
    )
}

/// Relies on `hpke::single_shot_open` with AES-128-GCM, HKDF-SHA384 and
/// DHKEM(X25519, HKDF-SHA256) in base mode: it deserializes the private and
/// encapsulated keys, decapsulates, re-derives the key schedule bound to
/// `info`, and decrypts, verifying the tag over `aad`; the result is a
/// function of the arguments alone.
#[verifier::external_body]
fn open_aes128_sha384_x25519(
    private_key: &[u8],
    encapped_key: &[u8],
    info: &[u8],
    ciphertext: &[u8],
    aad: &[u8],
) -> (r: Result<Vec<u8>, hpke::HpkeError>)
    ensures
        open_result_agrees(
            r,
            hpke_open_outcome(1, 2, 32, private_key@, encapped_key@, info@, ciphertext@, aad@),
        ),
{
    let sk = <<hpke::kem::X25519HkdfSha256 as hpke::Kem>::PrivateKey as hpke::Deserializable>::from_bytes(
        private_key,
    )?;
    let ek = <<hpke::kem::X25519HkdfSha256 as hpke::Kem>::EncappedKey as hpke::Deserializable>::from_bytes(
        encapped_key,
    )?;
    hpke::single_shot_open::<hpke::aead::AesGcm128, hpke::kdf::HkdfSha384, hpke::kem::X25519HkdfSha256>(
        &hpke::OpModeR::Base,
        &sk,
        &ek,
        info,
        ciphertext,
        aad,
    )
}

/// Relies on `hpke::single_shot_open` with AES-128-GCM, HKDF-SHA512 and
/// DHKEM(P-256, HKDF-SHA256) in base mode: it deserializes the private and
/// encapsulated keys, decapsulates, re-derives the key schedule bound to
/// `info`, and decrypts, verifying the tag over `aad`; the result is a
/// function of the arguments alone.
#[verifier::external_body]
fn open_aes128_sha512_p256(
    private_key: &[u8],
    encapped_key: &[u8],
    info: &[u8],
    ciphertext: &[u8],
    aad: &[u8],
) -> (r: Result<Vec<u8>, hpke::HpkeError>)
    ensures
        open_result_agrees(
            r,
            hpke_open_outcome(1, 3, 16, private_key@, encapped_key@, info@, ciphertext@, aad@),
        ),
{
    let sk = <<hpke::kem::DhP256HkdfSha256 as hpke::Kem>::PrivateKey as hpke::Deserializable>::from_bytes(
        private_key,
    )?;
    let ek = <<hpke::kem::DhP256HkdfSha256 as hpke::Kem>::EncappedKey as hpke::Deserializable>::from_bytes(
        encapped_key,
    )?;
    hpke::single_shot_open::<hpke::aead::AesGcm128, hpke::kdf::HkdfSha512, hpke::kem::DhP256HkdfSha256>(
        &hpke::OpModeR::Base,
        &sk,
        &ek,
        info,
        ciphertext,
        aad,
    )
}

/// Relies on `hpke::single_shot_open` with AES-128-GCM, HKDF-SHA512 and
/// DHKEM(X25519, HKDF-SHA256) in base mode: it deserializes the private and
/// encapsulated keys, decapsulates, re-derives the key schedule bound to
/// `info`, and decrypts, verifying the tag over `aad`; the result is a
/// function of the arguments alone.
#[verifier::external_body]
fn open_aes128_sha512_x25519(
    private_key: &[u8],
    encapped_key: &[u8],
    info: &[u8],
    ciphertext: &[u8],
    aad: &[u8],
) -> (r: Result<Vec<u8>, hpke::HpkeError>)
    ensures
        open_result_agrees(
            r,
            hpke_open_outcome(1, 3, 32, private_key@, encapped_key@, info@, ciphertext@, aad@),
        ),
{
    let sk = <<hpke::kem::X25519HkdfSha256 as hpke::Kem>::PrivateKey as hpke::Deserializable>::from_bytes(
        private_key,
    )?;
    let ek = <<hpke::kem::X25519HkdfSha256 as hpke::Kem>::EncappedKey as hpke::Deserializable>::from_bytes(
        encapped_key,
    )?;
    hpke::single_shot_open::<hpke::aead::AesGcm128, hpke::kdf::HkdfSha512, hpke::kem::X25519HkdfSha256>(
        &hpke::OpModeR::Base,
        &sk,
        &ek,
        info,
        ciphertext,
        aad,
    )
}

/// Relies on `hpke::single_shot_open` with AES-256-GCM, HKDF-SHA256 and
/// DHKEM(P-256, HKDF-SHA256) in base mode: it deserializes the private and
/// encapsulated keys, decapsulates, re-derives the key schedule bound to
/// `info`, and decrypts, verifying the tag over `aad`; the result is a
/// function of the arguments alone.
#[verifier::external_body]
fn open_aes256_sha256_p256(
    private_key: &[u8],
    encapped_key: &[u8],
    info: &[u8],
    ciphertext: &[u8],
    aad: &[u8],
) -> (r: Result<Vec<u8>, hpke::HpkeError>)
    ensures
        open_result_agrees(
            r,
            hpke_open_outcome(2, 1, 16, private_key@, encapped_key@, info@, ciphertext@, aad@),
        ),
{
    let sk = <<hpke::kem::DhP256HkdfSha256 as hpke::Kem>::PrivateKey as hpke::Deserializable>::from_bytes(
        private_key,
    )?;
    let ek = <<hpke::kem::DhP256HkdfSha256 as hpke::Kem>::EncappedKey as hpke::Deserializable>::from_bytes(
        encapped_key,
    )?;
    hpke::single_shot_open::<hpke::aead::AesGcm256, hpke::kdf::HkdfSha256, hpke::kem::DhP256HkdfSha256>(
        &hpke::OpModeR::Base,
        &sk,
        &ek,
        info,
        ciphertext,
        aad,
    )
}

/// Relies on `hpke::single_shot_open` with AES-256-GCM, HKDF-SHA256 and
/// DHKEM(X25519, HKDF-SHA256) in base mode: it deserializes the private and
/// encapsulated keys, decapsulates, re-derives the key schedule bound to
/// `info`, and decrypts, verifying the tag over `aad`; the result is a
/// function of the arguments alone.
#[verifier::external_body]
fn open_aes256_sha256_x25519(
    private_key: &[u8],
    encapped_key: &[u8],
    info: &[u8],
    ciphertext: &[u8],
    aad: &[u8],
) -> (r: Result<Vec<u8>, hpke::HpkeError>)
    ensures
        open_result_agrees(
            r,
            hpke_open_outcome(2, 1, 32, private_key@, encapped_key@, info@, ciphertext@, aad@),
        ),
{
    let sk = <<hpke::kem::X25519HkdfSha256 as hpke::Kem>::PrivateKey as hpke::Deserializable>::from_bytes(
        private_key,
    )?;
    let ek = <<hpke::kem::X25519HkdfSha256 as hpke::Kem>::EncappedKey as hpke::Deserializable>::from_bytes(
        encapped_key,
    )?;
    hpke::single_shot_open::<hpke::aead::AesGcm256, hpke::kdf::HkdfSha256, hpke::kem::X25519HkdfSha256>(
        &hpke::OpModeR::Base,
        &sk,
        &ek,
        info,
        ciphertext,
        aad,
    )
}

/// Relies on `hpke::single_shot_open` with AES-256-GCM, HKDF-SHA384 and
/// DHKEM(P-256, HKDF-SHA256) in base mode: it deserializes the private and
/// encapsulated keys, decapsulates, re-derives the key schedule bound to
/// `info`, and decrypts, verifying the tag over `aad`; the result is a
/// function of the arguments alone.
#[verifier::external_body]
fn open_aes256_sha384_p256(
    private_key: &[u8],
    encapped_key: &[u8],
    info: &[u8],
    ciphertext: &[u8],
    aad: &[u8],
) -> (r: Result<Vec<u8>, hpke::HpkeError>)
    ensures
        open_result_agrees(
            r,
            hpke_open_outcome(2, 2, 16, private_key@, encapped_key@, info@, ciphertext@, aad@),
        ),
{
    let sk = <<hpke::kem::DhP256HkdfSha256 as hpke::Kem>::PrivateKey as hpke::Deserializable>::from_bytes(
        private_key,
    )?;
    let ek = <<hpke::kem::DhP256HkdfSha256 as hpke::Kem>::EncappedKey as hpke::Deserializable>::from_bytes(
        encapped_key,
    )?;
    hpke::single_shot_open::<hpke::aead::AesGcm256, hpke::kdf::HkdfSha384, hpke::kem::DhP256HkdfSha256>(
        &hpke::OpModeR::Base,
        &sk,
        &ek,
        info,
        ciphertext,
        aad,
    )
}

/// Relies on `hpke::single_shot_open` with AES-256-GCM, HKDF-SHA384 and
/// DHKEM(X25519, HKDF-SHA256) in base mode: it deserializes the private and
/// encapsulated keys, decapsulates, re-derives the key schedule bound to
/// `info`, and decrypts, verifying the tag over `aad`; the result is a
/// function of the arguments alone.
#[verifier::external_body]
fn open_aes256_sha384_x25519(
    private_key: &[u8],
    encapped_key: &[u8],
    info: &[u8],
    ciphertext: &[u8],
    aad: &[u8],
) -> (r: Result<Vec<u8>, hpke::HpkeError>)
    ensures
        open_result_agrees(
            r,
            hpke_open_outcome(2, 2, 32, private_key@, encapped_key@, info@, ciphertext@, aad@),
        ),
{
    let sk = <<hpke::kem::X25519HkdfSha256 as hpke::Kem>::PrivateKey as hpke::Deserializable>::from_bytes(
        private_key,
    )?;
    let ek = <<hpke::kem::X25519HkdfSha256 as hpke::Kem>::EncappedKey as hpke::Deserializable>::from_bytes(
        encapped_key,
    )?;
    hpke::single_shot_open::<hpke::aead::AesGcm256, hpke::kdf::HkdfSha384, hpke::kem::X25519HkdfSha256>(
        &hpke::OpModeR::Base,
        &sk,
        &ek,
        info,
        ciphertext,
        aad,
    )
}

/// Relies on `hpke::single_shot_open` with AES-256-GCM, HKDF-SHA512 and
/// DHKEM(P-256, HKDF-SHA256) in base mode: it deserializes the private and
/// encapsulated keys, decapsulates, re-derives the key schedule bound to
/// `info`, and decrypts, verifying the tag over `aad`; the result is a
/// function of the arguments alone.
#[verifier::external_body]
fn open_aes256_sha512_p256(
    private_key: &[u8],
    encapped_key: &[u8],
    info: &[u8],
    ciphertext: &[u8],
    aad: &[u8],
) -> (r: Result<Vec<u8>, hpke::HpkeError>)
    ensures
        open_result_agrees(
            r,
            hpke_open_outcome(2, 3, 16, private_key@, encapped_key@, info@, ciphertext@, aad@),
        ),
{
    let sk = <<hpke::kem::DhP256HkdfSha256 as hpke::Kem>::PrivateKey as hpke::Deserializable>::from_bytes(
        private_key,
    )?;
    let ek = <<hpke::kem::DhP256HkdfSha256 as hpke::Kem>::EncappedKey as hpke::Deserializable>::from_bytes(
        encapped_key,
    )?;
    hpke::single_shot_open::<hpke::aead::AesGcm256, hpke::kdf::HkdfSha512, hpke::kem::DhP256HkdfSha256>(
        &hpke::OpModeR::Base,
        &sk,
        &ek,
        info,
        ciphertext,
        aad,
    )
}

/// Relies on `hpke::single_shot_open` with AES-256-GCM, HKDF-SHA512 and
/// DHKEM(X25519, HKDF-SHA256) in base mode: it deserializes the private and
/// encapsulated keys, decapsulates, re-derives the key schedule bound to
/// `info`, and decrypts, verifying the tag over `aad`; the result is a
/// function of the arguments alone.
#[verifier::external_body]
fn open_aes256_sha512_x25519(
    private_key: &[u8],
    encapped_key: &[u8],
    info: &[u8],
    ciphertext: &[u8],
    aad: &[u8],
) -> (r: Result<Vec<u8>, hpke::HpkeError>)
    ensures
        open_result_agrees(
            r,
            hpke_open_outcome(2, 3, 32, private_key@, encapped_key@, info@, ciphertext@, aad@),
        ),
{
    let sk = <<hpke::kem::X25519HkdfSha256 as hpke::Kem>::PrivateKey as hpke::Deserializable>::from_bytes(
        private_key,
    )?;
    let ek = <<hpke::kem::X25519HkdfSha256 as hpke::Kem>::EncappedKey as hpke::Deserializable>::from_bytes(
        encapped_key,
    )?;
    hpke::single_shot_open::<hpke::aead::AesGcm256, hpke::kdf::HkdfSha512, hpke::kem::X25519HkdfSha256>(
        &hpke::OpModeR::Base,
        &sk,
        &ek,
        info,
        ciphertext,
        aad,
    )
}

/// Relies on `hpke::single_shot_open` with ChaCha20Poly1305, HKDF-SHA256 and
/// DHKEM(P-256, HKDF-SHA256) in base mode: it deserializes the private and
/// encapsulated keys, decapsulates, re-derives the key schedule bound to
/// `info`, and decrypts, verifying the tag over `aad`; the result is a
/// function of the arguments alone.
#[verifier::external_body]
fn open_chacha_sha256_p256(
    private_key: &[u8],
    encapped_key: &[u8],
    info: &[u8],
    ciphertext: &[u8],
    aad: &[u8],
) -> (r: Result<Vec<u8>, hpke::HpkeError>)
    ensures
        open_result_agrees(
            r,
            hpke_open_outcome(3, 1, 16, private_key@, encapped_key@, info@, ciphertext@, aad@),
        ),
{
    let sk = <<hpke::kem::DhP256HkdfSha256 as hpke::Kem>::PrivateKey as hpke::Deserializable>::from_bytes(
        private_key,
    )?;
    let ek = <<hpke::kem::DhP256HkdfSha256 as hpke::Kem>::EncappedKey as hpke::Deserializable>::from_bytes(
        encapped_key,
    )?;
    hpke::single_shot_open::<hpke::aead::ChaCha20Poly1305, hpke::kdf::HkdfSha256, hpke::kem::DhP256HkdfSha256>(
        &hpke::OpModeR::Base,
        &sk,
        &ek,
        info,
        ciphertext,
        aad,
    )
}

/// Relies on `hpke::single_shot_open` with ChaCha20Poly1305, HKDF-SHA256 and
/// DHKEM(X25519, HKDF-SHA256) in base mode: it deserializes the private and
/// encapsulated keys, decapsulates, re-derives the key schedule bound to
/// `info`, and decrypts, verifying the tag over `aad`; the result is a
/// function of the arguments alone.
#[verifier::external_body]
fn open_chacha_sha256_x25519(
    private_key: &[u8],
    encapped_key: &[u8],
    info: &[u8],
    ciphertext: &[u8],
    aad: &[u8],
) -> (r: Result<Vec<u8>, hpke::HpkeError>)
    ensures
        open_result_agrees(
            r,
            hpke_open_outcome(3, 1, 32, private_key@, encapped_key@, info@, ciphertext@, aad@),
        ),
{
    let sk = <<hpke::kem::X25519HkdfSha256 as hpke::Kem>::PrivateKey as hpke::Deserializable>::from_bytes(
        private_key,
    )?;
    let ek = <<hpke::kem::X25519HkdfSha256 as hpke::Kem>::EncappedKey as hpke::Deserializable>::from_bytes(
        encapped_key,
    )?;
    hpke::single_shot_open::<hpke::aead::ChaCha20Poly1305, hpke::kdf::HkdfSha256, hpke::kem::X25519HkdfSha256>(
        &hpke::OpModeR::Base,
        &sk,
        &ek,
        info,
        ciphertext,
        aad,
    )
}

/// Relies on `hpke::single_shot_open` with ChaCha20Poly1305, HKDF-SHA384 and
/// DHKEM(P-256, HKDF-SHA256) in base mode: it deserializes the private and
/// encapsulated keys, decapsulates, re-derives the key schedule bound to
/// `info`, and decrypts, verifying the tag over `aad`; the result is a
/// function of the arguments alone.
#[verifier::external_body]
fn open_chacha_sha384_p256(
    private_key: &[u8],
    encapped_key: &[u8],
    info: &[u8],
    ciphertext: &[u8],
    aad: &[u8],
) -> (r: Result<Vec<u8>, hpke::HpkeError>)
    ensures
        open_result_agrees(
            r,
            hpke_open_outcome(3, 2, 16, private_key@, encapped_key@, info@, ciphertext@, aad@),
        ),
{
    let sk = <<hpke::kem::DhP256HkdfSha256 as hpke::Kem>::PrivateKey as hpke::Deserializable>::from_bytes(
        private_key,
    )?;
    let ek = <<hpke::kem::DhP256HkdfSha256 as hpke::Kem>::EncappedKey as hpke::Deserializable>::from_bytes(
        encapped_key,
    )?;
    hpke::single_shot_open::<hpke::aead::ChaCha20Poly1305, hpke::kdf::HkdfSha384, hpke::kem::DhP256HkdfSha256>(
        &hpke::OpModeR::Base,
        &sk,
        &ek,
        info,
        ciphertext,
        aad,
    )
}

/// Relies on `hpke::single_shot_open` with ChaCha20Poly1305, HKDF-SHA384 and
/// DHKEM(X25519, HKDF-SHA256) in base mode: it deserializes the private and
/// encapsulated keys, decapsulates, re-derives the key schedule bound to
/// `info`, and decrypts, verifying the tag over `aad`; the result is a
/// function of the arguments alone.
#[verifier::external_body]
fn open_chacha_sha384_x25519(
    private_key: &[u8],
    encapped_key: &[u8],
    info: &[u8],
    ciphertext: &[u8],
    aad: &[u8],
) -> (r: Result<Vec<u8>, hpke::HpkeError>)
    ensures
        open_result_agrees(
            r,
            hpke_open_outcome(3, 2, 32, private_key@, encapped_key@, info@, ciphertext@, aad@),
        ),
{
    let sk = <<hpke::kem::X25519HkdfSha256 as hpke::Kem>::PrivateKey as hpke::Deserializable>::from_bytes(
        private_key,
    )?;
    let ek = <<hpke::kem::X25519HkdfSha256 as hpke::Kem>::EncappedKey as hpke::Deserializable>::from_bytes(
        encapped_key,
    )?;
    hpke::single_shot_open::<hpke::aead::ChaCha20Poly1305, hpke::kdf::HkdfSha384, hpke::kem::X25519HkdfSha256>(
        &hpke::OpModeR::Base,
        &sk,
        &ek,
        info,
        ciphertext,
        aad,
    )
}

/// Relies on `hpke::single_shot_open` with ChaCha20Poly1305, HKDF-SHA512 and
/// DHKEM(P-256, HKDF-SHA256) in base mode: it deserializes the private and
/// encapsulated keys, decapsulates, re-derives the key schedule bound to
/// `info`, and decrypts, verifying the tag over `aad`; the result is a
/// function of the arguments alone.
#[verifier::external_body]
fn open_chacha_sha512_p256(
    private_key: &[u8],
    encapped_key: &[u8],
    info: &[u8],
    ciphertext: &[u8],
    aad: &[u8],
) -> (r: Result<Vec<u8>, hpke::HpkeError>)
    ensures
        open_result_agrees(
            r,
            hpke_open_outcome(3, 3, 16, private_key@, encapped_key@, info@, ciphertext@, aad@),
        ),
{
    let sk = <<hpke::kem::DhP256HkdfSha256 as hpke::Kem>::PrivateKey as hpke::Deserializable>::from_bytes(
        private_key,
    )?;
    let ek = <<hpke::kem::DhP256HkdfSha256 as hpke::Kem>::EncappedKey as hpke::Deserializable>::from_bytes(
        encapped_key,
    )?;
    hpke::single_shot_open::<hpke::aead::ChaCha20Poly1305, hpke::kdf::HkdfSha512, hpke::kem::DhP256HkdfSha256>(
        &hpke::OpModeR::Base,
        &sk,
        &ek,
        info,
        ciphertext,
        aad,
    )
}

/// Relies on `hpke::single_shot_open` with ChaCha20Poly1305, HKDF-SHA512 and
/// DHKEM(X25519, HKDF-SHA256) in base mode: it deserializes the private and
/// encapsulated keys, decapsulates, re-derives the key schedule bound to
/// `info`, and decrypts, verifying the tag over `aad`; the result is a
/// function of the arguments alone.
#[verifier::external_body]
fn open_chacha_sha512_x25519(
    private_key: &[u8],
    encapped_key: &[u8],
    info: &[u8],
    ciphertext: &[u8],
    aad: &[u8],
) -> (r: Result<Vec<u8>, hpke::HpkeError>)
    ensures
        open_result_agrees(
            r,
            hpke_open_outcome(3, 3, 32, private_key@, encapped_key@, info@, ciphertext@, aad@),
        ),
{
    let sk = <<hpke::kem::X25519HkdfSha256 as hpke::Kem>::PrivateKey as hpke::Deserializable>::from_bytes(
        private_key,
    )?;
    let ek = <<hpke::kem::X25519HkdfSha256 as hpke::Kem>::EncappedKey as hpke::Deserializable>::from_bytes(
        encapped_key,
    )?;
    hpke::single_shot_open::<hpke::aead::ChaCha20Poly1305, hpke::kdf::HkdfSha512, hpke::kem::X25519HkdfSha256>(
        &hpke::OpModeR::Base,
        &sk,
        &ek,
        info,
        ciphertext,
        aad,
    )
}

/// The dispatch engine for open: resolves the configuration's three
/// identifiers to the one monomorphic open operation they name, with no
/// further branching past this point.
fn dispatch_open(
    config: Config,
    private_key: &[u8],
    encapped_key: &[u8],
    info: &[u8],
    ciphertext: &[u8],
    aad: &[u8],
) -> (r: Result<Vec<u8>, hpke::HpkeError>)
    ensures
        open_result_agrees(
            r,
            spec_open_outcome(config, private_key@, encapped_key@, info@, ciphertext@, aad@),
        ),
{
    match (config.aead, config.kdf, config.kem) {
        (Aead::AesGcm128, Kdf::Sha256, Kem::DhP256HkdfSha256) => open_aes128_sha256_p256(
            private_key,
            encapped_key,
            info,
            ciphertext,
            aad,
        ),
        (Aead::AesGcm128, Kdf::Sha256, Kem::X25519HkdfSha256) => open_aes128_sha256_x25519(
            private_key,
            encapped_key,
            info,
            ciphertext,
            aad,
        ),
        (Aead::AesGcm128, Kdf::Sha384, Kem::DhP256HkdfSha256) => open_aes128_sha384_p256(
            private_key,
            encapped_key,
            info,
            ciphertext,
            aad,
        ),
        (Aead::AesGcm128, Kdf::Sha384, Kem::X25519HkdfSha256) => open_aes128_sha384_x25519(
            private_key,
            encapped_key,
            info,
            ciphertext,
            aad,
        ),
        (Aead::AesGcm128, Kdf::Sha512, Kem::DhP256HkdfSha256) => open_aes128_sha512_p256(
            private_key,
            encapped_key,
            info,
            ciphertext,
            aad,
        ),
        (Aead::AesGcm128, Kdf::Sha512, Kem::X25519HkdfSha256) => open_aes128_sha512_x25519(
            private_key,
            encapped_key,
            info,
            ciphertext,
            aad,
        ),
        (Aead::AesGcm256, Kdf::Sha256, Kem::DhP256HkdfSha256) => open_aes256_sha256_p256(
            private_key,
            encapped_key,
            info,
            ciphertext,
            aad,
        ),
        (Aead::AesGcm256, Kdf::Sha256, Kem::X25519HkdfSha256) => open_aes256_sha256_x25519(
            private_key,
            encapped_key,
            info,
            ciphertext,
            aad,
        ),
        (Aead::AesGcm256, Kdf::Sha384, Kem::DhP256HkdfSha256) => open_aes256_sha384_p256(
            private_key,
            encapped_key,
            info,
            ciphertext,
            aad,
        ),
        (Aead::AesGcm256, Kdf::Sha384, Kem::X25519HkdfSha256) => open_aes256_sha384_x25519(
            private_key,
            encapped_key,
            info,
            ciphertext,
            aad,
        ),
        (Aead::AesGcm256, Kdf::Sha512, Kem::DhP256HkdfSha256) => open_aes256_sha512_p256(
            private_key,
            encapped_key,
            info,
            ciphertext,
            aad,
        ),
        (Aead::AesGcm256, Kdf::Sha512, Kem::X25519HkdfSha256) => open_aes256_sha512_x25519(
            private_key,
            encapped_key,
            info,
            ciphertext,
            aad,
        ),
        (Aead::ChaCha20Poly1305, Kdf::Sha256, Kem::DhP256HkdfSha256) => open_chacha_sha256_p256(
            private_key,
            encapped_key,
            info,
            ciphertext,
            aad,
        ),
        (Aead::ChaCha20Poly1305, Kdf::Sha256, Kem::X25519HkdfSha256) => open_chacha_sha256_x25519(
            private_key,
            encapped_key,
            info,
            ciphertext,
            aad,
        ),
        (Aead::ChaCha20Poly1305, Kdf::Sha384, Kem::DhP256HkdfSha256) => open_chacha_sha384_p256(
            private_key,
            encapped_key,
            info,
            ciphertext,
            aad,
        ),
        (Aead::ChaCha20Poly1305, Kdf::Sha384, Kem::X25519HkdfSha256) => open_chacha_sha384_x25519(
            private_key,
            encapped_key,
            info,
            ciphertext,
            aad,
        ),
        (Aead::ChaCha20Poly1305, Kdf::Sha512, Kem::DhP256HkdfSha256) => open_chacha_sha512_p256(
            private_key,
            encapped_key,
            info,
            ciphertext,
            aad,
        ),
        (Aead::ChaCha20Poly1305, Kdf::Sha512, Kem::X25519HkdfSha256) => open_chacha_sha512_x25519(
            private_key,
            encapped_key,
            info,
            ciphertext,
            aad,
        ),
    }
}

/// Decapsulates `encapped_key` with `private_key` and decrypts `ciphertext`
/// under the algorithms `config` names, re-deriving the key schedule bound
/// to `info` and verifying the authentication tag over `aad`.
///
/// Canonical parameter order: private key, encapsulated key, info,
/// ciphertext, aad.
///
/// Returns the plaintext that `hpke::single_shot_open` names for exactly
/// this configuration and these inputs, or a uniform [`OperationError`] when
/// that operation fails (malformed keys, decapsulation failure, or a tag
/// that does not verify — the error never says which). No partial plaintext
/// is ever returned.
pub fn base_mode_open(
    config: &Config,
    private_key: &[u8],
    encapped_key: &[u8],
    info: &[u8],
    ciphertext: &[u8],
    aad: &[u8],
) -> (r: Result<Vec<u8>, OperationError>)
    ensures
        r matches Ok(pt) ==> spec_open_outcome(
            *config,
            private_key@,
            encapped_key@,
            info@,
            ciphertext@,
            aad@,
        ) == Some(pt@),
        r is Err ==> spec_open_outcome(
            *config,
            private_key@,
            encapped_key@,
            info@,
            ciphertext@,
            aad@,
        ) is None,
{
    match dispatch_open(*config, private_key, encapped_key, info, ciphertext, aad) {
        Ok(pt) => Ok(pt),
        Err(_) => Err(OperationError),
    }
}

} // verus!
