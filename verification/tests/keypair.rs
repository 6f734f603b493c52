//! Key-pair generation and the bundle/pair accessors.

use hpke_dispatch::gen_keypair;
use hpke_dispatch::EncappedKeyAndCiphertext;
use hpke_dispatch::Kem;
use hpke_dispatch::Keypair;

#[test]
fn generated_keys_have_the_lengths_the_kem_fixes() {
    let kp = gen_keypair(Kem::X25519HkdfSha256);
    assert_eq!(kp.private_key.len(), 32);
    assert_eq!(kp.public_key.len(), 32);

    let kp = gen_keypair(Kem::DhP256HkdfSha256);
    assert_eq!(kp.private_key.len(), 32);
    assert_eq!(kp.public_key.len(), 65);
}

#[test]
fn keypair_new_matches_gen_keypair_lengths() {
    for kem in Kem::all() {
        let a = Keypair::new(kem);
        let b = gen_keypair(kem);
        assert_eq!(a.private_key.len(), b.private_key.len());
        assert_eq!(a.public_key.len(), b.public_key.len());
    }
}

#[test]
fn keypair_into_parts_is_private_then_public() {
    let kp = Keypair {
        private_key: vec![1, 2, 3],
        public_key: vec![4, 5, 6],
    };
    let (private_key, public_key) = kp.into_parts();
    assert_eq!(private_key, vec![1, 2, 3]);
    assert_eq!(public_key, vec![4, 5, 6]);
}

#[test]
fn bundle_into_parts_is_encapped_key_then_ciphertext() {
    let bundle = EncappedKeyAndCiphertext {
        encapped_key: vec![7, 8],
        ciphertext: vec![9],
    };
    let (encapped_key, ciphertext) = bundle.into_parts();
    assert_eq!(encapped_key, vec![7, 8]);
    assert_eq!(ciphertext, vec![9]);
}

#[test]
fn independently_generated_keypairs_differ() {
    let a = gen_keypair(Kem::X25519HkdfSha256);
    let b = gen_keypair(Kem::X25519HkdfSha256);
    assert_ne!(a.private_key, b.private_key);
}
