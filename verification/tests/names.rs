//! Name lookup: case-insensitive, hyphen-insensitive, no fuzzy matching.

use hpke_dispatch::Aead;
use hpke_dispatch::IdKind;
use hpke_dispatch::Kdf;
use hpke_dispatch::Kem;

#[test]
fn aead_names_resolve() {
    assert_eq!(Aead::from_str("aesgcm128"), Ok(Aead::AesGcm128));
    assert_eq!(Aead::from_str("aes128gcm"), Ok(Aead::AesGcm128));
    assert_eq!(Aead::from_str("AES-128-GCM"), Ok(Aead::AesGcm128));
    assert_eq!(Aead::from_str("Aes-Gcm-128"), Ok(Aead::AesGcm128));
    assert_eq!(Aead::from_str("aesgcm256"), Ok(Aead::AesGcm256));
    assert_eq!(Aead::from_str("AES256GCM"), Ok(Aead::AesGcm256));
    assert_eq!(Aead::from_str("chacha20poly1305"), Ok(Aead::ChaCha20Poly1305));
    assert_eq!(Aead::from_str("ChaCha20-Poly1305"), Ok(Aead::ChaCha20Poly1305));
}

#[test]
fn kdf_names_resolve() {
    assert_eq!(Kdf::from_str("hkdfsha256"), Ok(Kdf::Sha256));
    assert_eq!(Kdf::from_str("HKDF-SHA256"), Ok(Kdf::Sha256));
    assert_eq!(Kdf::from_str("sha256"), Ok(Kdf::Sha256));
    assert_eq!(Kdf::from_str("Sha-384"), Ok(Kdf::Sha384));
    assert_eq!(Kdf::from_str("hkdf-sha384"), Ok(Kdf::Sha384));
    assert_eq!(Kdf::from_str("HKDFSHA512"), Ok(Kdf::Sha512));
    assert_eq!(Kdf::from_str("sha512"), Ok(Kdf::Sha512));
}

#[test]
fn kem_names_resolve() {
    assert_eq!(Kem::from_str("p256sha256"), Ok(Kem::DhP256HkdfSha256));
    assert_eq!(Kem::from_str("dhkemp256hkdfsha256"), Ok(Kem::DhP256HkdfSha256));
    assert_eq!(Kem::from_str("P256-HKDF-SHA256"), Ok(Kem::DhP256HkdfSha256));
    assert_eq!(Kem::from_str("DHKEM(P256, HKDFSHA256)"), Ok(Kem::DhP256HkdfSha256));
    assert_eq!(Kem::from_str("x25519sha256"), Ok(Kem::X25519HkdfSha256));
    assert_eq!(Kem::from_str("DHKEM-X25519-HKDF-SHA256"), Ok(Kem::X25519HkdfSha256));
    assert_eq!(Kem::from_str("X25519HkdfSha256"), Ok(Kem::X25519HkdfSha256));
    assert_eq!(Kem::from_str("dhkem(x25519, hkdfsha256)"), Ok(Kem::X25519HkdfSha256));
}

#[test]
fn unrecognized_names_fail_naming_the_kind() {
    assert_eq!(Aead::from_str("aes").unwrap_err().kind, IdKind::Aead);
    assert_eq!(Aead::from_str("").unwrap_err().kind, IdKind::Aead);
    assert_eq!(Aead::from_str("aesgcm512").unwrap_err().kind, IdKind::Aead);
    assert_eq!(Kdf::from_str("sha1").unwrap_err().kind, IdKind::Kdf);
    assert_eq!(Kdf::from_str("aesgcm128").unwrap_err().kind, IdKind::Kdf);
    assert_eq!(Kem::from_str("p384sha384").unwrap_err().kind, IdKind::Kem);
    assert_eq!(Kem::from_str("x448").unwrap_err().kind, IdKind::Kem);
}

#[test]
fn no_partial_or_fuzzy_matching() {
    // A prefix, a suffix, or embedded whitespace is not a match.
    assert!(Aead::from_str("aesgcm12").is_err());
    assert!(Aead::from_str("aesgcm1288").is_err());
    assert!(Aead::from_str(" aesgcm128").is_err());
    assert!(Aead::from_str("aes gcm 128").is_err());
    // Only hyphens are stripped, not underscores.
    assert!(Aead::from_str("aes_128_gcm").is_err());
}
