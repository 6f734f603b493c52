//! Round trips through every enabled configuration.

use hpke_dispatch::Aead;
use hpke_dispatch::Config;
use hpke_dispatch::Kdf;
use hpke_dispatch::Kem;

const AAD: &[u8] = b"associated data";
const PLAINTEXT: &[u8] = b"plaintext test message";
const APP_INFO: &[u8] = b"application info";

fn round_trip(config: Config) {
    let (private_key, public_key) = config.kem.gen_keypair().into_parts();

    let (encapped_key, ciphertext) = config
        .base_mode_seal(&public_key, APP_INFO, PLAINTEXT, AAD)
        .unwrap_or_else(|e| panic!("problem with {config:?} base_mode_seal ({e:?})"))
        .into_parts();

    let plaintext = config
        .base_mode_open(&private_key, &encapped_key, APP_INFO, &ciphertext, AAD)
        .unwrap_or_else(|e| panic!("problem with {config:?} base_mode_open ({e:?})"));

    assert_eq!(
        plaintext, PLAINTEXT,
        "round trip plaintext did not match for {config:?}"
    );
}

#[test]
fn test_all_round_trips() {
    let aeads = Aead::all();
    let kdfs = Kdf::all();
    let kems = Kem::all();
    for ((aead, kdf), kem) in aeads.iter().zip(kdfs.iter()).zip(kems.iter()) {
        round_trip(Config {
            aead: *aead,
            kdf: *kdf,
            kem: *kem,
        });
    }
}

#[test]
fn every_enabled_configuration_round_trips() {
    for aead in Aead::all() {
        for kdf in Kdf::all() {
            for kem in Kem::all() {
                round_trip(Config { aead, kdf, kem });
            }
        }
    }
}

#[test]
fn round_trip_with_empty_plaintext_info_and_aad() {
    let config = Config {
        aead: Aead::AesGcm128,
        kdf: Kdf::Sha256,
        kem: Kem::X25519HkdfSha256,
    };
    let (private_key, public_key) = config.kem.gen_keypair().into_parts();

    let (encapped_key, ciphertext) = config
        .base_mode_seal(&public_key, b"", b"", b"")
        .expect("seal with empty inputs")
        .into_parts();

    // An empty plaintext still carries one full authentication tag.
    assert_eq!(ciphertext.len(), 16);

    let plaintext = config
        .base_mode_open(&private_key, &encapped_key, b"", &ciphertext, b"")
        .expect("open with empty inputs");
    assert_eq!(plaintext, b"");
}

#[test]
fn seal_output_lengths_match_the_selected_algorithms() {
    for kem in Kem::all() {
        let config = Config {
            aead: Aead::ChaCha20Poly1305,
            kdf: Kdf::Sha256,
            kem,
        };
        let keypair = kem.gen_keypair();
        let sealed = config
            .base_mode_seal(&keypair.public_key, b"info", b"some plaintext", b"aad")
            .expect("seal");
        let expected_enc_len = match kem {
            Kem::DhP256HkdfSha256 => 65,
            Kem::X25519HkdfSha256 => 32,
        };
        assert_eq!(sealed.encapped_key.len(), expected_enc_len);
        assert_eq!(sealed.ciphertext.len(), b"some plaintext".len() + 16);
    }
}

#[test]
fn verified_round_trip_law_holds_at_run_time() {
    for aead in Aead::all() {
        for kdf in Kdf::all() {
            for kem in Kem::all() {
                let config = Config { aead, kdf, kem };
                let plaintext = hpke_dispatch::seal_open_round_trip(
                    &config,
                    b"law info",
                    b"law plaintext",
                    b"law aad",
                );
                assert_eq!(plaintext, b"law plaintext");
                let empty =
                    hpke_dispatch::seal_open_round_trip(&config, b"", b"", b"");
                assert_eq!(empty, b"");
            }
        }
    }
}
