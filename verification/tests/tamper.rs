//! Tamper detection and context binding.

use hpke_dispatch::Aead;
use hpke_dispatch::Config;
use hpke_dispatch::Kdf;
use hpke_dispatch::Kem;

const AAD: &[u8] = b"tamper test aad";
const PLAINTEXT: &[u8] = b"tamper test plaintext";
const APP_INFO: &[u8] = b"tamper test info";

/// Seals once and returns (private key, encapsulated key, ciphertext).
fn sealed(config: Config) -> (Vec<u8>, Vec<u8>, Vec<u8>) {
    let (private_key, public_key) = config.kem.gen_keypair().into_parts();
    let (encapped_key, ciphertext) = config
        .base_mode_seal(&public_key, APP_INFO, PLAINTEXT, AAD)
        .expect("seal")
        .into_parts();
    (private_key, encapped_key, ciphertext)
}

fn tamper_configs() -> Vec<Config> {
    // One configuration per enabled KEM; the AEAD tag check is the same code
    // path for every AEAD/KDF choice and is covered per-suite by the
    // round-trip and known-answer tests.
    vec![
        Config {
            aead: Aead::AesGcm128,
            kdf: Kdf::Sha256,
            kem: Kem::X25519HkdfSha256,
        },
        Config {
            aead: Aead::ChaCha20Poly1305,
            kdf: Kdf::Sha512,
            kem: Kem::DhP256HkdfSha256,
        },
    ]
}

#[test]
fn flipping_any_ciphertext_bit_fails_open() {
    for config in tamper_configs() {
        let (private_key, encapped_key, ciphertext) = sealed(config);
        for byte in 0..ciphertext.len() {
            for bit in 0..8 {
                let mut tampered = ciphertext.clone();
                tampered[byte] ^= 1 << bit;
                let result = config.base_mode_open(
                    &private_key,
                    &encapped_key,
                    APP_INFO,
                    &tampered,
                    AAD,
                );
                assert!(
                    result.is_err(),
                    "open succeeded on tampered ciphertext ({config:?}, byte {byte}, bit {bit})"
                );
            }
        }
    }
}

#[test]
fn flipping_any_encapped_key_bit_fails_open() {
    for config in tamper_configs() {
        let (private_key, encapped_key, ciphertext) = sealed(config);
        for byte in 0..encapped_key.len() {
            for bit in 0..8 {
                let mut tampered = encapped_key.clone();
                tampered[byte] ^= 1 << bit;
                let result = config.base_mode_open(
                    &private_key,
                    &tampered,
                    APP_INFO,
                    &ciphertext,
                    AAD,
                );
                // A flipped encapsulated-key bit either fails to deserialize
                // (P-256 point validation) or decapsulates to a different
                // shared secret; either way the tag cannot verify and no
                // wrong plaintext ever comes back.
                assert!(
                    result.is_err(),
                    "open succeeded on tampered encapped key ({config:?}, byte {byte}, bit {bit})"
                );
            }
        }
    }
}

#[test]
fn flipping_any_aad_bit_fails_open() {
    for config in tamper_configs() {
        let (private_key, encapped_key, ciphertext) = sealed(config);
        for byte in 0..AAD.len() {
            for bit in 0..8 {
                let mut tampered = AAD.to_vec();
                tampered[byte] ^= 1 << bit;
                let result = config.base_mode_open(
                    &private_key,
                    &encapped_key,
                    APP_INFO,
                    &ciphertext,
                    &tampered,
                );
                assert!(
                    result.is_err(),
                    "open succeeded on tampered aad ({config:?}, byte {byte}, bit {bit})"
                );
            }
        }
    }
}

#[test]
fn mismatched_info_fails_open_for_every_enabled_configuration() {
    for aead in Aead::all() {
        for kdf in Kdf::all() {
            for kem in Kem::all() {
                let config = Config { aead, kdf, kem };
                let (private_key, public_key) = config.kem.gen_keypair().into_parts();
                let (encapped_key, ciphertext) = config
                    .base_mode_seal(&public_key, b"A", PLAINTEXT, AAD)
                    .expect("seal")
                    .into_parts();
                let result =
                    config.base_mode_open(&private_key, &encapped_key, b"B", &ciphertext, AAD);
                assert!(
                    result.is_err(),
                    "open succeeded with mismatched info for {config:?}"
                );
            }
        }
    }
}

#[test]
fn operation_errors_are_uniform() {
    let config = Config {
        aead: Aead::AesGcm128,
        kdf: Kdf::Sha256,
        kem: Kem::X25519HkdfSha256,
    };
    let (private_key, encapped_key, ciphertext) = sealed(config);

    // A malformed key and a failed tag check surface as the same value.
    let bad_key = config
        .base_mode_open(b"short", &encapped_key, APP_INFO, &ciphertext, AAD)
        .unwrap_err();
    let bad_aad = config
        .base_mode_open(&private_key, &encapped_key, APP_INFO, &ciphertext, b"x")
        .unwrap_err();
    assert_eq!(bad_key, bad_aad);
    assert_eq!(bad_key.message(), "hpke operation failed");
}

#[test]
fn seal_rejects_a_wrong_size_public_key() {
    for config in tamper_configs() {
        let result = config.base_mode_seal(b"not a key", b"info", b"plaintext", b"aad");
        assert!(result.is_err(), "seal accepted a malformed key for {config:?}");
    }
}
