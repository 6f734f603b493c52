//! The seal operation: encapsulate, then encrypt.

use crate::base_mode_open::hpke_open_outcome;
use crate::base_mode_open::spec_open_outcome;
use crate::keypair::kem_pair;
use crate::Aead;
use crate::Config;
use crate::EncappedKeyAndCiphertext;
use crate::Kdf;
use crate::Kem;
use crate::OperationError;
use vstd::prelude::*;

verus! {

/// Relies on `hpke::single_shot_seal_with_rng` with AES-128-GCM, HKDF-SHA256
/// and DHKEM(P-256, HKDF-SHA256) in base mode, drawing from the thread-local
/// CSPRNG: it deserializes the recipient public key, encapsulates a fresh
/// shared secret, derives the key schedule bound to `info`, and encrypts
/// `plaintext`, authenticating `aad`. The result is randomized; these hold
/// of every outcome. On success the encapsulated key is 65 bytes (RFC
/// 9180 Nenc), the ciphertext is the plaintext plus one 16-byte tag, and —
/// because `hpke::single_shot_open` of this same suite inverts the seal for
/// a matching key pair (RFC 9180 correctness) — opening the output under any
/// private key that matches the recipient public key yields exactly the
/// plaintext. A public key of a length other than the 65-byte Npk fails
/// to deserialize, so the call then fails; one that is the public half of a
/// matching pair deserializes and encapsulation cannot fail for it, so for a
/// plaintext below the AEAD message limit the call succeeds.
#[verifier::external_body]
fn seal_aes128_sha256_p256(
    recipient_public_key: &[u8],
    info: &[u8],
    plaintext: &[u8],
    aad: &[u8],
) -> (r: Result<(Vec<u8>, Vec<u8>), hpke::HpkeError>)
    ensures
        r matches Ok(p) ==> p.0@.len() == 65 && p.1@.len() == plaintext@.len() + 16,
        recipient_public_key@.len() != 65 ==> r is Err,
        r matches Ok(p) ==> (forall|sk: Seq<u8>|
            #[trigger] kem_pair(16, sk, recipient_public_key@) ==> hpke_open_outcome(
                1,
                1,
                16,
                sk,
                p.0@,
                info@,
                p.1@,
                aad@,
            ) == Some(plaintext@)),
        (exists|sk: Seq<u8>| #[trigger] kem_pair(16, sk, recipient_public_key@))
            && plaintext@.len() < 0x1_0000_0000 ==> r is Ok,
{
    let pk = <<hpke::kem::DhP256HkdfSha256 as hpke::Kem>::PublicKey as hpke::Deserializable>::from_bytes(
        recipient_public_key,
    )?;
    let (ek, ciphertext) = hpke::single_shot_seal_with_rng::<hpke::aead::AesGcm128, hpke::kdf::HkdfSha256, hpke::kem::DhP256HkdfSha256>(
        &hpke::OpModeS::Base,
        &pk,
        info,
        plaintext,
        aad,
        &mut rand::rng(),
    )?;
    Ok((hpke::Serializable::to_bytes(&ek).to_vec(), ciphertext))
}

/// Relies on `hpke::single_shot_seal_with_rng` with AES-128-GCM, HKDF-SHA256
/// and DHKEM(X25519, HKDF-SHA256) in base mode, drawing from the thread-local
/// CSPRNG: it deserializes the recipient public key, encapsulates a fresh
/// shared secret, derives the key schedule bound to `info`, and encrypts
/// `plaintext`, authenticating `aad`. The result is randomized; these hold
/// of every outcome. On success the encapsulated key is 32 bytes (RFC
/// 9180 Nenc), the ciphertext is the plaintext plus one 16-byte tag, and —
/// because `hpke::single_shot_open` of this same suite inverts the seal for
/// a matching key pair (RFC 9180 correctness) — opening the output under any
/// private key that matches the recipient public key yields exactly the
/// plaintext. A public key of a length other than the 32-byte Npk fails
/// to deserialize, so the call then fails; one that is the public half of a
/// matching pair deserializes and encapsulation cannot fail for it, so for a
/// plaintext below the AEAD message limit the call succeeds.
#[verifier::external_body]
fn seal_aes128_sha256_x25519(
    recipient_public_key: &[u8],
    info: &[u8],
    plaintext: &[u8],
    aad: &[u8],
) -> (r: Result<(Vec<u8>, Vec<u8>), hpke::HpkeError>)
    ensures
        r matches Ok(p) ==> p.0@.len() == 32 && p.1@.len() == plaintext@.len() + 16,
        recipient_public_key@.len() != 32 ==> r is Err,
        r matches Ok(p) ==> (forall|sk: Seq<u8>|
            #[trigger] kem_pair(32, sk, recipient_public_key@) ==> hpke_open_outcome(
                1,
                1,
                32,
                sk,
                p.0@,
                info@,
                p.1@,
                aad@,
            ) == Some(plaintext@)),
        (exists|sk: Seq<u8>| #[trigger] kem_pair(32, sk, recipient_public_key@))
            && plaintext@.len() < 0x1_0000_0000 ==> r is Ok,
{
    let pk = <<hpke::kem::X25519HkdfSha256 as hpke::Kem>::PublicKey as hpke::Deserializable>::from_bytes(
        recipient_public_key,
    )?;
    let (ek, ciphertext) = hpke::single_shot_seal_with_rng::<hpke::aead::AesGcm128, hpke::kdf::HkdfSha256, hpke::kem::X25519HkdfSha256>(
        &hpke::OpModeS::Base,
        &pk,
        info,
        plaintext,
        aad,
        &mut rand::rng(),
    )?;
    Ok((hpke::Serializable::to_bytes(&ek).to_vec(), ciphertext))
}

/// Relies on `hpke::single_shot_seal_with_rng` with AES-128-GCM, HKDF-SHA384
/// and DHKEM(P-256, HKDF-SHA256) in base mode, drawing from the thread-local
/// CSPRNG: it deserializes the recipient public key, encapsulates a fresh
/// shared secret, derives the key schedule bound to `info`, and encrypts
/// `plaintext`, authenticating `aad`. The result is randomized; these hold
/// of every outcome. On success the encapsulated key is 65 bytes (RFC
/// 9180 Nenc), the ciphertext is the plaintext plus one 16-byte tag, and —
/// because `hpke::single_shot_open` of this same suite inverts the seal for
/// a matching key pair (RFC 9180 correctness) — opening the output under any
/// private key that matches the recipient public key yields exactly the
/// plaintext. A public key of a length other than the 65-byte Npk fails
/// to deserialize, so the call then fails; one that is the public half of a
/// matching pair deserializes and encapsulation cannot fail for it, so for a
/// plaintext below the AEAD message limit the call succeeds.
#[verifier::external_body]
fn seal_aes128_sha384_p256(
    recipient_public_key: &[u8],
    info: &[u8],
    plaintext: &[u8],
    aad: &[u8],
) -> (r: Result<(Vec<u8>, Vec<u8>), hpke::HpkeError>)
    ensures
        r matches Ok(p) ==> p.0@.len() == 65 && p.1@.len() == plaintext@.len() + 16,
        recipient_public_key@.len() != 65 ==> r is Err,
        r matches Ok(p) ==> (forall|sk: Seq<u8>|
            #[trigger] kem_pair(16, sk, recipient_public_key@) ==> hpke_open_outcome(
                1,
                2,
                16,
                sk,
                p.0@,
                info@,
                p.1@,
                aad@,
            ) == Some(plaintext@)),
        (exists|sk: Seq<u8>| #[trigger] kem_pair(16, sk, recipient_public_key@))
            && plaintext@.len() < 0x1_0000_0000 ==> r is Ok,
{
    let pk = <<hpke::kem::DhP256HkdfSha256 as hpke::Kem>::PublicKey as hpke::Deserializable>::from_bytes(
        recipient_public_key,
    )?;
    let (ek, ciphertext) = hpke::single_shot_seal_with_rng::<hpke::aead::AesGcm128, hpke::kdf::HkdfSha384, hpke::kem::DhP256HkdfSha256>(
        &hpke::OpModeS::Base,
        &pk,
        info,
        plaintext,
        aad,
        &mut rand::rng(),
    )?;
    Ok((hpke::Serializable::to_bytes(&ek).to_vec(), ciphertext))
}

/// Relies on `hpke::single_shot_seal_with_rng` with AES-128-GCM, HKDF-SHA384
/// and DHKEM(X25519, HKDF-SHA256) in base mode, drawing from the thread-local
/// CSPRNG: it deserializes the recipient public key, encapsulates a fresh
/// shared secret, derives the key schedule bound to `info`, and encrypts
/// `plaintext`, authenticating `aad`. The result is randomized; these hold
/// of every outcome. On success the encapsulated key is 32 bytes (RFC
/// 9180 Nenc), the ciphertext is the plaintext plus one 16-byte tag, and —
/// because `hpke::single_shot_open` of this same suite inverts the seal for
/// a matching key pair (RFC 9180 correctness) — opening the output under any
/// private key that matches the recipient public key yields exactly the
/// plaintext. A public key of a length other than the 32-byte Npk fails
/// to deserialize, so the call then fails; one that is the public half of a
/// matching pair deserializes and encapsulation cannot fail for it, so for a
/// plaintext below the AEAD message limit the call succeeds.
#[verifier::external_body]
fn seal_aes128_sha384_x25519(
    recipient_public_key: &[u8],
    info: &[u8],
    plaintext: &[u8],
    aad: &[u8],
) -> (r: Result<(Vec<u8>, Vec<u8>), hpke::HpkeError>)
    ensures
        r matches Ok(p) ==> p.0@.len() == 32 && p.1@.len() == plaintext@.len() + 16,
        recipient_public_key@.len() != 32 ==> r is Err,
        r matches Ok(p) ==> (forall|sk: Seq<u8>|
            #[trigger] kem_pair(32, sk, recipient_public_key@) ==> hpke_open_outcome(
                1,
                2,
                32,
                sk,
                p.0@,
                info@,
                p.1@,
                aad@,
            ) == Some(plaintext@)),
        (exists|sk: Seq<u8>| #[trigger] kem_pair(32, sk, recipient_public_key@))
            && plaintext@.len() < 0x1_0000_0000 ==> r is Ok,
{
    let pk = <<hpke::kem::X25519HkdfSha256 as hpke::Kem>::PublicKey as hpke::Deserializable>::from_bytes(
        recipient_public_key,
    )?;
    let (ek, ciphertext) = hpke::single_shot_seal_with_rng::<hpke::aead::AesGcm128, hpke::kdf::HkdfSha384, hpke::kem::X25519HkdfSha256>(
        &hpke::OpModeS::Base,
        &pk,
        info,
        plaintext,
        aad,
        &mut rand::rng(),
    )?;
    Ok((hpke::Serializable::to_bytes(&ek).to_vec(), ciphertext))
}

/// Relies on `hpke::single_shot_seal_with_rng` with AES-128-GCM, HKDF-SHA512
/// and DHKEM(P-256, HKDF-SHA256) in base mode, drawing from the thread-local
/// CSPRNG: it deserializes the recipient public key, encapsulates a fresh
/// shared secret, derives the key schedule bound to `info`, and encrypts
/// `plaintext`, authenticating `aad`. The result is randomized; these hold
/// of every outcome. On success the encapsulated key is 65 bytes (RFC
/// 9180 Nenc), the ciphertext is the plaintext plus one 16-byte tag, and —
/// because `hpke::single_shot_open` of this same suite inverts the seal for
/// a matching key pair (RFC 9180 correctness) — opening the output under any
/// private key that matches the recipient public key yields exactly the
/// plaintext. A public key of a length other than the 65-byte Npk fails
/// to deserialize, so the call then fails; one that is the public half of a
/// matching pair deserializes and encapsulation cannot fail for it, so for a
/// plaintext below the AEAD message limit the call succeeds.
#[verifier::external_body]
fn seal_aes128_sha512_p256(
    recipient_public_key: &[u8],
    info: &[u8],
    plaintext: &[u8],
    aad: &[u8],
) -> (r: Result<(Vec<u8>, Vec<u8>), hpke::HpkeError>)
    ensures
        r matches Ok(p) ==> p.0@.len() == 65 && p.1@.len() == plaintext@.len() + 16,
        recipient_public_key@.len() != 65 ==> r is Err,
        r matches Ok(p) ==> (forall|sk: Seq<u8>|
            #[trigger] kem_pair(16, sk, recipient_public_key@) ==> hpke_open_outcome(
                1,
                3,
                16,
                sk,
                p.0@,
                info@,
                p.1@,
                aad@,
            ) == Some(plaintext@)),
        (exists|sk: Seq<u8>| #[trigger] kem_pair(16, sk, recipient_public_key@))
            && plaintext@.len() < 0x1_0000_0000 ==> r is Ok,
{
    let pk = <<hpke::kem::DhP256HkdfSha256 as hpke::Kem>::PublicKey as hpke::Deserializable>::from_bytes(
        recipient_public_key,
    )?;
    let (ek, ciphertext) = hpke::single_shot_seal_with_rng::<hpke::aead::AesGcm128, hpke::kdf::HkdfSha512, hpke::kem::DhP256HkdfSha256>(
        &hpke::OpModeS::Base,
        &pk,
        info,
        plaintext,
        aad,
        &mut rand::rng(),
    )?;
    Ok((hpke::Serializable::to_bytes(&ek).to_vec(), ciphertext))
}

/// Relies on `hpke::single_shot_seal_with_rng` with AES-128-GCM, HKDF-SHA512
/// and DHKEM(X25519, HKDF-SHA256) in base mode, drawing from the thread-local
/// CSPRNG: it deserializes the recipient public key, encapsulates a fresh
/// shared secret, derives the key schedule bound to `info`, and encrypts
/// `plaintext`, authenticating `aad`. The result is randomized; these hold
/// of every outcome. On success the encapsulated key is 32 bytes (RFC
/// 9180 Nenc), the ciphertext is the plaintext plus one 16-byte tag, and —
/// because `hpke::single_shot_open` of this same suite inverts the seal for
/// a matching key pair (RFC 9180 correctness) — opening the output under any
/// private key that matches the recipient public key yields exactly the
/// plaintext. A public key of a length other than the 32-byte Npk fails
/// to deserialize, so the call then fails; one that is the public half of a
/// matching pair deserializes and encapsulation cannot fail for it, so for a
/// plaintext below the AEAD message limit the call succeeds.
#[verifier::external_body]
fn seal_aes128_sha512_x25519(
    recipient_public_key: &[u8],
    info: &[u8],
    plaintext: &[u8],
    aad: &[u8],
) -> (r: Result<(Vec<u8>, Vec<u8>), hpke::HpkeError>)
    ensures
        r matches Ok(p) ==> p.0@.len() == 32 && p.1@.len() == plaintext@.len() + 16,
        recipient_public_key@.len() != 32 ==> r is Err,
        r matches Ok(p) ==> (forall|sk: Seq<u8>|
            #[trigger] kem_pair(32, sk, recipient_public_key@) ==> hpke_open_outcome(
                1,
                3,
                32,
                sk,
                p.0@,
                info@,
                p.1@,
                aad@,
            ) == Some(plaintext@)),
        (exists|sk: Seq<u8>| #[trigger] kem_pair(32, sk, recipient_public_key@))
            && plaintext@.len() < 0x1_0000_0000 ==> r is Ok,
{
    let pk = <<hpke::kem::X25519HkdfSha256 as hpke::Kem>::PublicKey as hpke::Deserializable>::from_bytes(
        recipient_public_key,
    )?;
    let (ek, ciphertext) = hpke::single_shot_seal_with_rng::<hpke::aead::AesGcm128, hpke::kdf::HkdfSha512, hpke::kem::X25519HkdfSha256>(
        &hpke::OpModeS::Base,
        &pk,
        info,
        plaintext,
        aad,
        &mut rand::rng(),
    )?;
    Ok((hpke::Serializable::to_bytes(&ek).to_vec(), ciphertext))
}

/// Relies on `hpke::single_shot_seal_with_rng` with AES-256-GCM, HKDF-SHA256
/// and DHKEM(P-256, HKDF-SHA256) in base mode, drawing from the thread-local
/// CSPRNG: it deserializes the recipient public key, encapsulates a fresh
/// shared secret, derives the key schedule bound to `info`, and encrypts
/// `plaintext`, authenticating `aad`. The result is randomized; these hold
/// of every outcome. On success the encapsulated key is 65 bytes (RFC
/// 9180 Nenc), the ciphertext is the plaintext plus one 16-byte tag, and —
/// because `hpke::single_shot_open` of this same suite inverts the seal for
/// a matching key pair (RFC 9180 correctness) — opening the output under any
/// private key that matches the recipient public key yields exactly the
/// plaintext. A public key of a length other than the 65-byte Npk fails
/// to deserialize, so the call then fails; one that is the public half of a
/// matching pair deserializes and encapsulation cannot fail for it, so for a
/// plaintext below the AEAD message limit the call succeeds.
#[verifier::external_body]
fn seal_aes256_sha256_p256(
    recipient_public_key: &[u8],
    info: &[u8],
    plaintext: &[u8],
    aad: &[u8],
) -> (r: Result<(Vec<u8>, Vec<u8>), hpke::HpkeError>)
    ensures
        r matches Ok(p) ==> p.0@.len() == 65 && p.1@.len() == plaintext@.len() + 16,
        recipient_public_key@.len() != 65 ==> r is Err,
        r matches Ok(p) ==> (forall|sk: Seq<u8>|
            #[trigger] kem_pair(16, sk, recipient_public_key@) ==> hpke_open_outcome(
                2,
                1,
                16,
                sk,
                p.0@,
                info@,
                p.1@,
                aad@,
            ) == Some(plaintext@)),
        (exists|sk: Seq<u8>| #[trigger] kem_pair(16, sk, recipient_public_key@))
            && plaintext@.len() < 0x1_0000_0000 ==> r is Ok,
{
    let pk = <<hpke::kem::DhP256HkdfSha256 as hpke::Kem>::PublicKey as hpke::Deserializable>::from_bytes(
        recipient_public_key,
    )?;
    let (ek, ciphertext) = hpke::single_shot_seal_with_rng::<hpke::aead::AesGcm256, hpke::kdf::HkdfSha256, hpke::kem::DhP256HkdfSha256>(
        &hpke::OpModeS::Base,
        &pk,
        info,
        plaintext,
        aad,
        &mut rand::rng(),
    )?;
    Ok((hpke::Serializable::to_bytes(&ek).to_vec(), ciphertext))
}

/// Relies on `hpke::single_shot_seal_with_rng` with AES-256-GCM, HKDF-SHA256
/// and DHKEM(X25519, HKDF-SHA256) in base mode, drawing from the thread-local
/// CSPRNG: it deserializes the recipient public key, encapsulates a fresh
/// shared secret, derives the key schedule bound to `info`, and encrypts
/// `plaintext`, authenticating `aad`. The result is randomized; these hold
/// of every outcome. On success the encapsulated key is 32 bytes (RFC
/// 9180 Nenc), the ciphertext is the plaintext plus one 16-byte tag, and —
/// because `hpke::single_shot_open` of this same suite inverts the seal for
/// a matching key pair (RFC 9180 correctness) — opening the output under any
/// private key that matches the recipient public key yields exactly the
/// plaintext. A public key of a length other than the 32-byte Npk fails
/// to deserialize, so the call then fails; one that is the public half of a
/// matching pair deserializes and encapsulation cannot fail for it, so for a
/// plaintext below the AEAD message limit the call succeeds.
#[verifier::external_body]
fn seal_aes256_sha256_x25519(
    recipient_public_key: &[u8],
    info: &[u8],
    plaintext: &[u8],
    aad: &[u8],
) -> (r: Result<(Vec<u8>, Vec<u8>), hpke::HpkeError>)
    ensures
        r matches Ok(p) ==> p.0@.len() == 32 && p.1@.len() == plaintext@.len() + 16,
        recipient_public_key@.len() != 32 ==> r is Err,
        r matches Ok(p) ==> (forall|sk: Seq<u8>|
            #[trigger] kem_pair(32, sk, recipient_public_key@) ==> hpke_open_outcome(
                2,
                1,
                32,
                sk,
                p.0@,
                info@,
                p.1@,
                aad@,
            ) == Some(plaintext@)),
        (exists|sk: Seq<u8>| #[trigger] kem_pair(32, sk, recipient_public_key@))
            && plaintext@.len() < 0x1_0000_0000 ==> r is Ok,
{
    let pk = <<hpke::kem::X25519HkdfSha256 as hpke::Kem>::PublicKey as hpke::Deserializable>::from_bytes(
        recipient_public_key,
    )?;
    let (ek, ciphertext) = hpke::single_shot_seal_with_rng::<hpke::aead::AesGcm256, hpke::kdf::HkdfSha256, hpke::kem::X25519HkdfSha256>(
        &hpke::OpModeS::Base,
        &pk,
        info,
        plaintext,
        aad,
        &mut rand::rng(),
    )?;
    Ok((hpke::Serializable::to_bytes(&ek).to_vec(), ciphertext))
}

/// Relies on `hpke::single_shot_seal_with_rng` with AES-256-GCM, HKDF-SHA384
/// and DHKEM(P-256, HKDF-SHA256) in base mode, drawing from the thread-local
/// CSPRNG: it deserializes the recipient public key, encapsulates a fresh
/// shared secret, derives the key schedule bound to `info`, and encrypts
/// `plaintext`, authenticating `aad`. The result is randomized; these hold
/// of every outcome. On success the encapsulated key is 65 bytes (RFC
/// 9180 Nenc), the ciphertext is the plaintext plus one 16-byte tag, and —
/// because `hpke::single_shot_open` of this same suite inverts the seal for
/// a matching key pair (RFC 9180 correctness) — opening the output under any
/// private key that matches the recipient public key yields exactly the
/// plaintext. A public key of a length other than the 65-byte Npk fails
/// to deserialize, so the call then fails; one that is the public half of a
/// matching pair deserializes and encapsulation cannot fail for it, so for a
/// plaintext below the AEAD message limit the call succeeds.
#[verifier::external_body]
fn seal_aes256_sha384_p256(
    recipient_public_key: &[u8],
    info: &[u8],
    plaintext: &[u8],
    aad: &[u8],
) -> (r: Result<(Vec<u8>, Vec<u8>), hpke::HpkeError>)
    ensures
        r matches Ok(p) ==> p.0@.len() == 65 && p.1@.len() == plaintext@.len() + 16,
        recipient_public_key@.len() != 65 ==> r is Err,
        r matches Ok(p) ==> (forall|sk: Seq<u8>|
            #[trigger] kem_pair(16, sk, recipient_public_key@) ==> hpke_open_outcome(
                2,
                2,
                16,
                sk,
                p.0@,
                info@,
                p.1@,
                aad@,
            ) == Some(plaintext@)),
        (exists|sk: Seq<u8>| #[trigger] kem_pair(16, sk, recipient_public_key@))
            && plaintext@.len() < 0x1_0000_0000 ==> r is Ok,
{
    let pk = <<hpke::kem::DhP256HkdfSha256 as hpke::Kem>::PublicKey as hpke::Deserializable>::from_bytes(
        recipient_public_key,
    )?;
    let (ek, ciphertext) = hpke::single_shot_seal_with_rng::<hpke::aead::AesGcm256, hpke::kdf::HkdfSha384, hpke::kem::DhP256HkdfSha256>(
        &hpke::OpModeS::Base,
        &pk,
        info,
        plaintext,
        aad,
        &mut rand::rng(),
    )?;
    Ok((hpke::Serializable::to_bytes(&ek).to_vec(), ciphertext))
}

/// Relies on `hpke::single_shot_seal_with_rng` with AES-256-GCM, HKDF-SHA384
/// and DHKEM(X25519, HKDF-SHA256) in base mode, drawing from the thread-local
/// CSPRNG: it deserializes the recipient public key, encapsulates a fresh
/// shared secret, derives the key schedule bound to `info`, and encrypts
/// `plaintext`, authenticating `aad`. The result is randomized; these hold
/// of every outcome. On success the encapsulated key is 32 bytes (RFC
/// 9180 Nenc), the ciphertext is the plaintext plus one 16-byte tag, and —
/// because `hpke::single_shot_open` of this same suite inverts the seal for
/// a matching key pair (RFC 9180 correctness) — opening the output under any
/// private key that matches the recipient public key yields exactly the
/// plaintext. A public key of a length other than the 32-byte Npk fails
/// to deserialize, so the call then fails; one that is the public half of a
/// matching pair deserializes and encapsulation cannot fail for it, so for a
/// plaintext below the AEAD message limit the call succeeds.
#[verifier::external_body]
fn seal_aes256_sha384_x25519(
    recipient_public_key: &[u8],
    info: &[u8],
    plaintext: &[u8],
    aad: &[u8],
) -> (r: Result<(Vec<u8>, Vec<u8>), hpke::HpkeError>)
    ensures
        r matches Ok(p) ==> p.0@.len() == 32 && p.1@.len() == plaintext@.len() + 16,
        recipient_public_key@.len() != 32 ==> r is Err,
        r matches Ok(p) ==> (forall|sk: Seq<u8>|
            #[trigger] kem_pair(32, sk, recipient_public_key@) ==> hpke_open_outcome(
                2,
                2,
                32,
                sk,
                p.0@,
                info@,
                p.1@,
                aad@,
            ) == Some(plaintext@)),
        (exists|sk: Seq<u8>| #[trigger] kem_pair(32, sk, recipient_public_key@))
            && plaintext@.len() < 0x1_0000_0000 ==> r is Ok,
{
    let pk = <<hpke::kem::X25519HkdfSha256 as hpke::Kem>::PublicKey as hpke::Deserializable>::from_bytes(
        recipient_public_key,
    )?;
    let (ek, ciphertext) = hpke::single_shot_seal_with_rng::<hpke::aead::AesGcm256, hpke::kdf::HkdfSha384, hpke::kem::X25519HkdfSha256>(
        &hpke::OpModeS::Base,
        &pk,
        info,
        plaintext,
        aad,
        &mut rand::rng(),
    )?;
    Ok((hpke::Serializable::to_bytes(&ek).to_vec(), ciphertext))
}

/// Relies on `hpke::single_shot_seal_with_rng` with AES-256-GCM, HKDF-SHA512
/// and DHKEM(P-256, HKDF-SHA256) in base mode, drawing from the thread-local
/// CSPRNG: it deserializes the recipient public key, encapsulates a fresh
/// shared secret, derives the key schedule bound to `info`, and encrypts
/// `plaintext`, authenticating `aad`. The result is randomized; these hold
/// of every outcome. On success the encapsulated key is 65 bytes (RFC
/// 9180 Nenc), the ciphertext is the plaintext plus one 16-byte tag, and —
/// because `hpke::single_shot_open` of this same suite inverts the seal for
/// a matching key pair (RFC 9180 correctness) — opening the output under any
/// private key that matches the recipient public key yields exactly the
/// plaintext. A public key of a length other than the 65-byte Npk fails
/// to deserialize, so the call then fails; one that is the public half of a
/// matching pair deserializes and encapsulation cannot fail for it, so for a
/// plaintext below the AEAD message limit the call succeeds.
#[verifier::external_body]
fn seal_aes256_sha512_p256(
    recipient_public_key: &[u8],
    info: &[u8],
    plaintext: &[u8],
    aad: &[u8],
) -> (r: Result<(Vec<u8>, Vec<u8>), hpke::HpkeError>)
    ensures
        r matches Ok(p) ==> p.0@.len() == 65 && p.1@.len() == plaintext@.len() + 16,
        recipient_public_key@.len() != 65 ==> r is Err,
        r matches Ok(p) ==> (forall|sk: Seq<u8>|
            #[trigger] kem_pair(16, sk, recipient_public_key@) ==> hpke_open_outcome(
                2,
                3,
                16,
                sk,
                p.0@,
                info@,
                p.1@,
                aad@,
            ) == Some(plaintext@)),
        (exists|sk: Seq<u8>| #[trigger] kem_pair(16, sk, recipient_public_key@))
            && plaintext@.len() < 0x1_0000_0000 ==> r is Ok,
{
    let pk = <<hpke::kem::DhP256HkdfSha256 as hpke::Kem>::PublicKey as hpke::Deserializable>::from_bytes(
        recipient_public_key,
    )?;
    let (ek, ciphertext) = hpke::single_shot_seal_with_rng::<hpke::aead::AesGcm256, hpke::kdf::HkdfSha512, hpke::kem::DhP256HkdfSha256>(
        &hpke::OpModeS::Base,
        &pk,
        info,
        plaintext,
        aad,
        &mut rand::rng(),
    )?;
    Ok((hpke::Serializable::to_bytes(&ek).to_vec(), ciphertext))
}

/// Relies on `hpke::single_shot_seal_with_rng` with AES-256-GCM, HKDF-SHA512
/// and DHKEM(X25519, HKDF-SHA256) in base mode, drawing from the thread-local
/// CSPRNG: it deserializes the recipient public key, encapsulates a fresh
/// shared secret, derives the key schedule bound to `info`, and encrypts
/// `plaintext`, authenticating `aad`. The result is randomized; these hold
/// of every outcome. On success the encapsulated key is 32 bytes (RFC
/// 9180 Nenc), the ciphertext is the plaintext plus one 16-byte tag, and —
/// because `hpke::single_shot_open` of this same suite inverts the seal for
/// a matching key pair (RFC 9180 correctness) — opening the output under any
/// private key that matches the recipient public key yields exactly the
/// plaintext. A public key of a length other than the 32-byte Npk fails
/// to deserialize, so the call then fails; one that is the public half of a
/// matching pair deserializes and encapsulation cannot fail for it, so for a
/// plaintext below the AEAD message limit the call succeeds.
#[verifier::external_body]
fn seal_aes256_sha512_x25519(
    recipient_public_key: &[u8],
    info: &[u8],
    plaintext: &[u8],
    aad: &[u8],
) -> (r: Result<(Vec<u8>, Vec<u8>), hpke::HpkeError>)
    ensures
        r matches Ok(p) ==> p.0@.len() == 32 && p.1@.len() == plaintext@.len() + 16,
        recipient_public_key@.len() != 32 ==> r is Err,
        r matches Ok(p) ==> (forall|sk: Seq<u8>|
            #[trigger] kem_pair(32, sk, recipient_public_key@) ==> hpke_open_outcome(
                2,
                3,
                32,
                sk,
                p.0@,
                info@,
                p.1@,
                aad@,
            ) == Some(plaintext@)),
        (exists|sk: Seq<u8>| #[trigger] kem_pair(32, sk, recipient_public_key@))
            && plaintext@.len() < 0x1_0000_0000 ==> r is Ok,
{
    let pk = <<hpke::kem::X25519HkdfSha256 as hpke::Kem>::PublicKey as hpke::Deserializable>::from_bytes(
        recipient_public_key,
    )?;
    let (ek, ciphertext) = hpke::single_shot_seal_with_rng::<hpke::aead::AesGcm256, hpke::kdf::HkdfSha512, hpke::kem::X25519HkdfSha256>(
        &hpke::OpModeS::Base,
        &pk,
        info,
        plaintext,
        aad,
        &mut rand::rng(),
    )?;
    Ok((hpke::Serializable::to_bytes(&ek).to_vec(), ciphertext))
}

/// Relies on `hpke::single_shot_seal_with_rng` with ChaCha20Poly1305, HKDF-SHA256
/// and DHKEM(P-256, HKDF-SHA256) in base mode, drawing from the thread-local
/// CSPRNG: it deserializes the recipient public key, encapsulates a fresh
/// shared secret, derives the key schedule bound to `info`, and encrypts
/// `plaintext`, authenticating `aad`. The result is randomized; these hold
/// of every outcome. On success the encapsulated key is 65 bytes (RFC
/// 9180 Nenc), the ciphertext is the plaintext plus one 16-byte tag, and —
/// because `hpke::single_shot_open` of this same suite inverts the seal for
/// a matching key pair (RFC 9180 correctness) — opening the output under any
/// private key that matches the recipient public key yields exactly the
/// plaintext. A public key of a length other than the 65-byte Npk fails
/// to deserialize, so the call then fails; one that is the public half of a
/// matching pair deserializes and encapsulation cannot fail for it, so for a
/// plaintext below the AEAD message limit the call succeeds.
#[verifier::external_body]
fn seal_chacha_sha256_p256(
    recipient_public_key: &[u8],
    info: &[u8],
    plaintext: &[u8],
    aad: &[u8],
) -> (r: Result<(Vec<u8>, Vec<u8>), hpke::HpkeError>)
    ensures
        r matches Ok(p) ==> p.0@.len() == 65 && p.1@.len() == plaintext@.len() + 16,
        recipient_public_key@.len() != 65 ==> r is Err,
        r matches Ok(p) ==> (forall|sk: Seq<u8>|
            #[trigger] kem_pair(16, sk, recipient_public_key@) ==> hpke_open_outcome(
                3,
                1,
                16,
                sk,
                p.0@,
                info@,
                p.1@,
                aad@,
            ) == Some(plaintext@)),
        (exists|sk: Seq<u8>| #[trigger] kem_pair(16, sk, recipient_public_key@))
            && plaintext@.len() < 0x1_0000_0000 ==> r is Ok,
{
    let pk = <<hpke::kem::DhP256HkdfSha256 as hpke::Kem>::PublicKey as hpke::Deserializable>::from_bytes(
        recipient_public_key,
    )?;
    let (ek, ciphertext) = hpke::single_shot_seal_with_rng::<hpke::aead::ChaCha20Poly1305, hpke::kdf::HkdfSha256, hpke::kem::DhP256HkdfSha256>(
        &hpke::OpModeS::Base,
        &pk,
        info,
        plaintext,
        aad,
        &mut rand::rng(),
    )?;
    Ok((hpke::Serializable::to_bytes(&ek).to_vec(), ciphertext))
}

/// Relies on `hpke::single_shot_seal_with_rng` with ChaCha20Poly1305, HKDF-SHA256
/// and DHKEM(X25519, HKDF-SHA256) in base mode, drawing from the thread-local
/// CSPRNG: it deserializes the recipient public key, encapsulates a fresh
/// shared secret, derives the key schedule bound to `info`, and encrypts
/// `plaintext`, authenticating `aad`. The result is randomized; these hold
/// of every outcome. On success the encapsulated key is 32 bytes (RFC
/// 9180 Nenc), the ciphertext is the plaintext plus one 16-byte tag, and —
/// because `hpke::single_shot_open` of this same suite inverts the seal for
/// a matching key pair (RFC 9180 correctness) — opening the output under any
/// private key that matches the recipient public key yields exactly the
/// plaintext. A public key of a length other than the 32-byte Npk fails
/// to deserialize, so the call then fails; one that is the public half of a
/// matching pair deserializes and encapsulation cannot fail for it, so for a
/// plaintext below the AEAD message limit the call succeeds.
#[verifier::external_body]
fn seal_chacha_sha256_x25519(
    recipient_public_key: &[u8],
    info: &[u8],
    plaintext: &[u8],
    aad: &[u8],
) -> (r: Result<(Vec<u8>, Vec<u8>), hpke::HpkeError>)
    ensures
        r matches Ok(p) ==> p.0@.len() == 32 && p.1@.len() == plaintext@.len() + 16,
        recipient_public_key@.len() != 32 ==> r is Err,
        r matches Ok(p) ==> (forall|sk: Seq<u8>|
            #[trigger] kem_pair(32, sk, recipient_public_key@) ==> hpke_open_outcome(
                3,
                1,
                32,
                sk,
                p.0@,
                info@,
                p.1@,
                aad@,
            ) == Some(plaintext@)),
        (exists|sk: Seq<u8>| #[trigger] kem_pair(32, sk, recipient_public_key@))
            && plaintext@.len() < 0x1_0000_0000 ==> r is Ok,
{
    let pk = <<hpke::kem::X25519HkdfSha256 as hpke::Kem>::PublicKey as hpke::Deserializable>::from_bytes(
        recipient_public_key,
    )?;
    let (ek, ciphertext) = hpke::single_shot_seal_with_rng::<hpke::aead::ChaCha20Poly1305, hpke::kdf::HkdfSha256, hpke::kem::X25519HkdfSha256>(
        &hpke::OpModeS::Base,
        &pk,
        info,
        plaintext,
        aad,
        &mut rand::rng(),
    )?;
    Ok((hpke::Serializable::to_bytes(&ek).to_vec(), ciphertext))
}

/// Relies on `hpke::single_shot_seal_with_rng` with ChaCha20Poly1305, HKDF-SHA384
/// and DHKEM(P-256, HKDF-SHA256) in base mode, drawing from the thread-local
/// CSPRNG: it deserializes the recipient public key, encapsulates a fresh
/// shared secret, derives the key schedule bound to `info`, and encrypts
/// `plaintext`, authenticating `aad`. The result is randomized; these hold
/// of every outcome. On success the encapsulated key is 65 bytes (RFC
/// 9180 Nenc), the ciphertext is the plaintext plus one 16-byte tag, and —
/// because `hpke::single_shot_open` of this same suite inverts the seal for
/// a matching key pair (RFC 9180 correctness) — opening the output under any
/// private key that matches the recipient public key yields exactly the
/// plaintext. A public key of a length other than the 65-byte Npk fails
/// to deserialize, so the call then fails; one that is the public half of a
/// matching pair deserializes and encapsulation cannot fail for it, so for a
/// plaintext below the AEAD message limit the call succeeds.
#[verifier::external_body]
fn seal_chacha_sha384_p256(
    recipient_public_key: &[u8],
    info: &[u8],
    plaintext: &[u8],
    aad: &[u8],
) -> (r: Result<(Vec<u8>, Vec<u8>), hpke::HpkeError>)
    ensures
        r matches Ok(p) ==> p.0@.len() == 65 && p.1@.len() == plaintext@.len() + 16,
        recipient_public_key@.len() != 65 ==> r is Err,
        r matches Ok(p) ==> (forall|sk: Seq<u8>|
            #[trigger] kem_pair(16, sk, recipient_public_key@) ==> hpke_open_outcome(
                3,
                2,
                16,
                sk,
                p.0@,
                info@,
                p.1@,
                aad@,
            ) == Some(plaintext@)),
        (exists|sk: Seq<u8>| #[trigger] kem_pair(16, sk, recipient_public_key@))
            && plaintext@.len() < 0x1_0000_0000 ==> r is Ok,
{
    let pk = <<hpke::kem::DhP256HkdfSha256 as hpke::Kem>::PublicKey as hpke::Deserializable>::from_bytes(
        recipient_public_key,
    )?;
    let (ek, ciphertext) = hpke::single_shot_seal_with_rng::<hpke::aead::ChaCha20Poly1305, hpke::kdf::HkdfSha384, hpke::kem::DhP256HkdfSha256>(
        &hpke::OpModeS::Base,
        &pk,
        info,
        plaintext,
        aad,
        &mut rand::rng(),
    )?;
    Ok((hpke::Serializable::to_bytes(&ek).to_vec(), ciphertext))
}

/// Relies on `hpke::single_shot_seal_with_rng` with ChaCha20Poly1305, HKDF-SHA384
/// and DHKEM(X25519, HKDF-SHA256) in base mode, drawing from the thread-local
/// CSPRNG: it deserializes the recipient public key, encapsulates a fresh
/// shared secret, derives the key schedule bound to `info`, and encrypts
/// `plaintext`, authenticating `aad`. The result is randomized; these hold
/// of every outcome. On success the encapsulated key is 32 bytes (RFC
/// 9180 Nenc), the ciphertext is the plaintext plus one 16-byte tag, and —
/// because `hpke::single_shot_open` of this same suite inverts the seal for
/// a matching key pair (RFC 9180 correctness) — opening the output under any
/// private key that matches the recipient public key yields exactly the
/// plaintext. A public key of a length other than the 32-byte Npk fails
/// to deserialize, so the call then fails; one that is the public half of a
/// matching pair deserializes and encapsulation cannot fail for it, so for a
/// plaintext below the AEAD message limit the call succeeds.
#[verifier::external_body]
fn seal_chacha_sha384_x25519(
    recipient_public_key: &[u8],
    info: &[u8],
    plaintext: &[u8],
    aad: &[u8],
) -> (r: Result<(Vec<u8>, Vec<u8>), hpke::HpkeError>)
    ensures
        r matches Ok(p) ==> p.0@.len() == 32 && p.1@.len() == plaintext@.len() + 16,
        recipient_public_key@.len() != 32 ==> r is Err,
        r matches Ok(p) ==> (forall|sk: Seq<u8>|
            #[trigger] kem_pair(32, sk, recipient_public_key@) ==> hpke_open_outcome(
                3,
                2,
                32,
                sk,
                p.0@,
                info@,
                p.1@,
                aad@,
            ) == Some(plaintext@)),
        (exists|sk: Seq<u8>| #[trigger] kem_pair(32, sk, recipient_public_key@))
            && plaintext@.len() < 0x1_0000_0000 ==> r is Ok,
{
    let pk = <<hpke::kem::X25519HkdfSha256 as hpke::Kem>::PublicKey as hpke::Deserializable>::from_bytes(
        recipient_public_key,
    )?;
    let (ek, ciphertext) = hpke::single_shot_seal_with_rng::<hpke::aead::ChaCha20Poly1305, hpke::kdf::HkdfSha384, hpke::kem::X25519HkdfSha256>(
        &hpke::OpModeS::Base,
        &pk,
        info,
        plaintext,
        aad,
        &mut rand::rng(),
    )?;
    Ok((hpke::Serializable::to_bytes(&ek).to_vec(), ciphertext))
}

/// Relies on `hpke::single_shot_seal_with_rng` with ChaCha20Poly1305, HKDF-SHA512
/// and DHKEM(P-256, HKDF-SHA256) in base mode, drawing from the thread-local
/// CSPRNG: it deserializes the recipient public key, encapsulates a fresh
/// shared secret, derives the key schedule bound to `info`, and encrypts
/// `plaintext`, authenticating `aad`. The result is randomized; these hold
/// of every outcome. On success the encapsulated key is 65 bytes (RFC
/// 9180 Nenc), the ciphertext is the plaintext plus one 16-byte tag, and —
/// because `hpke::single_shot_open` of this same suite inverts the seal for
/// a matching key pair (RFC 9180 correctness) — opening the output under any
/// private key that matches the recipient public key yields exactly the
/// plaintext. A public key of a length other than the 65-byte Npk fails
/// to deserialize, so the call then fails; one that is the public half of a
/// matching pair deserializes and encapsulation cannot fail for it, so for a
/// plaintext below the AEAD message limit the call succeeds.
#[verifier::external_body]
fn seal_chacha_sha512_p256(
    recipient_public_key: &[u8],
    info: &[u8],
    plaintext: &[u8],
    aad: &[u8],
) -> (r: Result<(Vec<u8>, Vec<u8>), hpke::HpkeError>)
    ensures
        r matches Ok(p) ==> p.0@.len() == 65 && p.1@.len() == plaintext@.len() + 16,
        recipient_public_key@.len() != 65 ==> r is Err,
        r matches Ok(p) ==> (forall|sk: Seq<u8>|
            #[trigger] kem_pair(16, sk, recipient_public_key@) ==> hpke_open_outcome(
                3,
                3,
                16,
                sk,
                p.0@,
                info@,
                p.1@,
                aad@,
            ) == Some(plaintext@)),
        (exists|sk: Seq<u8>| #[trigger] kem_pair(16, sk, recipient_public_key@))
            && plaintext@.len() < 0x1_0000_0000 ==> r is Ok,
{
    let pk = <<hpke::kem::DhP256HkdfSha256 as hpke::Kem>::PublicKey as hpke::Deserializable>::from_bytes(
        recipient_public_key,
    )?;
    let (ek, ciphertext) = hpke::single_shot_seal_with_rng::<hpke::aead::ChaCha20Poly1305, hpke::kdf::HkdfSha512, hpke::kem::DhP256HkdfSha256>(
        &hpke::OpModeS::Base,
        &pk,
        info,
        plaintext,
        aad,
        &mut rand::rng(),
    )?;
    Ok((hpke::Serializable::to_bytes(&ek).to_vec(), ciphertext))
}

/// Relies on `hpke::single_shot_seal_with_rng` with ChaCha20Poly1305, HKDF-SHA512
/// and DHKEM(X25519, HKDF-SHA256) in base mode, drawing from the thread-local
/// CSPRNG: it deserializes the recipient public key, encapsulates a fresh
/// shared secret, derives the key schedule bound to `info`, and encrypts
/// `plaintext`, authenticating `aad`. The result is randomized; these hold
/// of every outcome. On success the encapsulated key is 32 bytes (RFC
/// 9180 Nenc), the ciphertext is the plaintext plus one 16-byte tag, and —
/// because `hpke::single_shot_open` of this same suite inverts the seal for
/// a matching key pair (RFC 9180 correctness) — opening the output under any
/// private key that matches the recipient public key yields exactly the
/// plaintext. A public key of a length other than the 32-byte Npk fails
/// to deserialize, so the call then fails; one that is the public half of a
/// matching pair deserializes and encapsulation cannot fail for it, so for a
/// plaintext below the AEAD message limit the call succeeds.
#[verifier::external_body]
fn seal_chacha_sha512_x25519(
    recipient_public_key: &[u8],
    info: &[u8],
    plaintext: &[u8],
    aad: &[u8],
) -> (r: Result<(Vec<u8>, Vec<u8>), hpke::HpkeError>)
    ensures
        r matches Ok(p) ==> p.0@.len() == 32 && p.1@.len() == plaintext@.len() + 16,
        recipient_public_key@.len() != 32 ==> r is Err,
        r matches Ok(p) ==> (forall|sk: Seq<u8>|
            #[trigger] kem_pair(32, sk, recipient_public_key@) ==> hpke_open_outcome(
                3,
                3,
                32,
                sk,
                p.0@,
                info@,
                p.1@,
                aad@,
            ) == Some(plaintext@)),
        (exists|sk: Seq<u8>| #[trigger] kem_pair(32, sk, recipient_public_key@))
            && plaintext@.len() < 0x1_0000_0000 ==> r is Ok,
{
    let pk = <<hpke::kem::X25519HkdfSha256 as hpke::Kem>::PublicKey as hpke::Deserializable>::from_bytes(
        recipient_public_key,
    )?;
    let (ek, ciphertext) = hpke::single_shot_seal_with_rng::<hpke::aead::ChaCha20Poly1305, hpke::kdf::HkdfSha512, hpke::kem::X25519HkdfSha256>(
        &hpke::OpModeS::Base,
        &pk,
        info,
        plaintext,
        aad,
        &mut rand::rng(),
    )?;
    Ok((hpke::Serializable::to_bytes(&ek).to_vec(), ciphertext))
}

/// The dispatch engine for seal: resolves the configuration's three
/// identifiers to the one monomorphic seal operation they name, with no
/// further branching past this point.
fn dispatch_seal(
    config: Config,
    recipient_public_key: &[u8],
    info: &[u8],
    plaintext: &[u8],
    aad: &[u8],
) -> (r: Result<(Vec<u8>, Vec<u8>), hpke::HpkeError>)
    ensures
        r matches Ok(p) ==> p.0@.len() == config.kem.spec_encapped_key_len() && p.1@.len()
            == plaintext@.len() + config.aead.spec_tag_len(),
        recipient_public_key@.len() != config.kem.spec_public_key_len() ==> r is Err,
        r matches Ok(p) ==> (forall|sk: Seq<u8>|
            #[trigger] kem_pair(config.kem.spec_numeric_id(), sk, recipient_public_key@)
                ==> spec_open_outcome(config, sk, p.0@, info@, p.1@, aad@) == Some(plaintext@)),
        (exists|sk: Seq<u8>|
            #[trigger] kem_pair(config.kem.spec_numeric_id(), sk, recipient_public_key@))
            && plaintext@.len() < 0x1_0000_0000 ==> r is Ok,
{
    match (config.aead, config.kdf, config.kem) {
        (Aead::AesGcm128, Kdf::Sha256, Kem::DhP256HkdfSha256) => seal_aes128_sha256_p256(
            recipient_public_key,
            info,
            plaintext,
            aad,
        ),
        (Aead::AesGcm128, Kdf::Sha256, Kem::X25519HkdfSha256) => seal_aes128_sha256_x25519(
            recipient_public_key,
            info,
            plaintext,
            aad,
        ),
        (Aead::AesGcm128, Kdf::Sha384, Kem::DhP256HkdfSha256) => seal_aes128_sha384_p256(
            recipient_public_key,
            info,
            plaintext,
            aad,
        ),
        (Aead::AesGcm128, Kdf::Sha384, Kem::X25519HkdfSha256) => seal_aes128_sha384_x25519(
            recipient_public_key,
            info,
            plaintext,
            aad,
        ),
        (Aead::AesGcm128, Kdf::Sha512, Kem::DhP256HkdfSha256) => seal_aes128_sha512_p256(
            recipient_public_key,
            info,
            plaintext,
            aad,
        ),
        (Aead::AesGcm128, Kdf::Sha512, Kem::X25519HkdfSha256) => seal_aes128_sha512_x25519(
            recipient_public_key,
            info,
            plaintext,
            aad,
        ),
        (Aead::AesGcm256, Kdf::Sha256, Kem::DhP256HkdfSha256) => seal_aes256_sha256_p256(
            recipient_public_key,
            info,
            plaintext,
            aad,
        ),
        (Aead::AesGcm256, Kdf::Sha256, Kem::X25519HkdfSha256) => seal_aes256_sha256_x25519(
            recipient_public_key,
            info,
            plaintext,
            aad,
        ),
        (Aead::AesGcm256, Kdf::Sha384, Kem::DhP256HkdfSha256) => seal_aes256_sha384_p256(
            recipient_public_key,
            info,
            plaintext,
            aad,
        ),
        (Aead::AesGcm256, Kdf::Sha384, Kem::X25519HkdfSha256) => seal_aes256_sha384_x25519(
            recipient_public_key,
            info,
            plaintext,
            aad,
        ),
        (Aead::AesGcm256, Kdf::Sha512, Kem::DhP256HkdfSha256) => seal_aes256_sha512_p256(
            recipient_public_key,
            info,
            plaintext,
            aad,
        ),
        (Aead::AesGcm256, Kdf::Sha512, Kem::X25519HkdfSha256) => seal_aes256_sha512_x25519(
            recipient_public_key,
            info,
            plaintext,
            aad,
        ),
        (Aead::ChaCha20Poly1305, Kdf::Sha256, Kem::DhP256HkdfSha256) => seal_chacha_sha256_p256(
            recipient_public_key,
            info,
            plaintext,
            aad,
        ),
        (Aead::ChaCha20Poly1305, Kdf::Sha256, Kem::X25519HkdfSha256) => seal_chacha_sha256_x25519(
            recipient_public_key,
            info,
            plaintext,
            aad,
        ),
        (Aead::ChaCha20Poly1305, Kdf::Sha384, Kem::DhP256HkdfSha256) => seal_chacha_sha384_p256(
            recipient_public_key,
            info,
            plaintext,
            aad,
        ),
        (Aead::ChaCha20Poly1305, Kdf::Sha384, Kem::X25519HkdfSha256) => seal_chacha_sha384_x25519(
            recipient_public_key,
            info,
            plaintext,
            aad,
        ),
        (Aead::ChaCha20Poly1305, Kdf::Sha512, Kem::DhP256HkdfSha256) => seal_chacha_sha512_p256(
            recipient_public_key,
            info,
            plaintext,
            aad,
        ),
        (Aead::ChaCha20Poly1305, Kdf::Sha512, Kem::X25519HkdfSha256) => seal_chacha_sha512_x25519(
            recipient_public_key,
            info,
            plaintext,
            aad,
        ),
    }
}

/// Encapsulates a fresh shared secret to `recipient_public_key` and encrypts
/// `plaintext` under the algorithms `config` names, binding the key schedule
/// to `info` and authenticating `aad` (which is authenticated but not
/// encrypted).
///
/// On success the bundle holds the encapsulated key — whose length is the
/// Nenc the selected KEM fixes — and the ciphertext, which is exactly one
/// AEAD tag longer than the plaintext; opening the bundle with this very
/// configuration, any matching private key of the recipient, and the same
/// info and aad yields exactly the plaintext. Sealing to the public half of
/// a matching key pair succeeds for any plaintext below the AEAD message
/// limit. On any failure (a public key that does not deserialize for the
/// selected KEM, or a failed encapsulation or encryption) it returns a
/// uniform [`OperationError`] that never says which step failed; a public
/// key whose length is not the Npk the selected KEM fixes always fails.
/// Consumes entropy from the thread-local CSPRNG; no other observable state
/// changes.
pub fn base_mode_seal(
    config: &Config,
    recipient_public_key: &[u8],
    info: &[u8],
    plaintext: &[u8],
    aad: &[u8],
) -> (r: Result<EncappedKeyAndCiphertext, OperationError>)
    ensures
        r matches Ok(b) ==> b.encapped_key@.len() == config.kem.spec_encapped_key_len()
            && b.ciphertext@.len() == plaintext@.len() + config.aead.spec_tag_len(),
        recipient_public_key@.len() != config.kem.spec_public_key_len() ==> r is Err,
        r matches Ok(b) ==> (forall|sk: Seq<u8>|
            #[trigger] kem_pair(config.kem.spec_numeric_id(), sk, recipient_public_key@)
                ==> spec_open_outcome(*config, sk, b.encapped_key@, info@, b.ciphertext@, aad@)
                == Some(plaintext@)),
        (exists|sk: Seq<u8>|
            #[trigger] kem_pair(config.kem.spec_numeric_id(), sk, recipient_public_key@))
            && plaintext@.len() < 0x1_0000_0000 ==> r is Ok,
{
    match dispatch_seal(*config, recipient_public_key, info, plaintext, aad) {
        Ok(p) => Ok(EncappedKeyAndCiphertext { encapped_key: p.0, ciphertext: p.1 }),
        Err(_) => Err(OperationError),
    }
}

} // verus!
