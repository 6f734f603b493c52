//! Identifier round trips and unknown-id rejection.

use hpke_dispatch::Aead;
use hpke_dispatch::Config;
use hpke_dispatch::IdKind;
use hpke_dispatch::Kdf;
use hpke_dispatch::Kem;

#[test]
fn registry_values_match_the_fixed_table() {
    assert_eq!(Aead::AesGcm128.numeric_id(), 1);
    assert_eq!(Aead::AesGcm256.numeric_id(), 2);
    assert_eq!(Aead::ChaCha20Poly1305.numeric_id(), 3);

    assert_eq!(Kdf::Sha256.numeric_id(), 1);
    assert_eq!(Kdf::Sha384.numeric_id(), 2);
    assert_eq!(Kdf::Sha512.numeric_id(), 3);

    assert_eq!(Kem::DhP256HkdfSha256.numeric_id(), 16);
    assert_eq!(Kem::X25519HkdfSha256.numeric_id(), 32);
}

#[test]
fn every_enabled_aead_id_round_trips() {
    for aead in Aead::all() {
        assert_eq!(Aead::from_numeric_id(aead.numeric_id()), Ok(aead));
    }
}

#[test]
fn every_enabled_kdf_id_round_trips() {
    for kdf in Kdf::all() {
        assert_eq!(Kdf::from_numeric_id(kdf.numeric_id()), Ok(kdf));
    }
}

#[test]
fn every_enabled_kem_id_round_trips() {
    for kem in Kem::all() {
        assert_eq!(Kem::from_numeric_id(kem.numeric_id()), Ok(kem));
    }
}

#[test]
fn every_enabled_configuration_round_trips_through_its_ids() {
    for aead in Aead::all() {
        for kdf in Kdf::all() {
            for kem in Kem::all() {
                let config = Config { aead, kdf, kem };
                assert_eq!(
                    Config::try_from_ids(
                        aead.numeric_id(),
                        kdf.numeric_id(),
                        kem.numeric_id()
                    ),
                    Ok(config)
                );
            }
        }
    }
}

#[test]
fn unknown_ids_are_rejected_naming_the_field() {
    // An unknown value in each position independently, with the other two valid.
    let e = Config::try_from_ids(9999, 1, 32).unwrap_err();
    assert_eq!(e.kind, IdKind::Aead);

    let e = Config::try_from_ids(1, 9999, 32).unwrap_err();
    assert_eq!(e.kind, IdKind::Kdf);

    let e = Config::try_from_ids(1, 1, 9999).unwrap_err();
    assert_eq!(e.kind, IdKind::Kem);

    // Zero is not a registry value of any enabled algorithm.
    assert_eq!(Config::try_from_ids(0, 1, 32).unwrap_err().kind, IdKind::Aead);
    assert_eq!(Config::try_from_ids(1, 0, 32).unwrap_err().kind, IdKind::Kdf);
    assert_eq!(Config::try_from_ids(1, 1, 0).unwrap_err().kind, IdKind::Kem);

    // KEM registry values outside the enabled build-time subset.
    assert_eq!(Config::try_from_ids(1, 1, 17).unwrap_err().kind, IdKind::Kem);
    assert_eq!(Config::try_from_ids(1, 1, 18).unwrap_err().kind, IdKind::Kem);

    // The first offending field wins when several are unknown.
    assert_eq!(Config::try_from_ids(9999, 9999, 9999).unwrap_err().kind, IdKind::Aead);
    assert_eq!(Config::try_from_ids(1, 9999, 9999).unwrap_err().kind, IdKind::Kdf);
}

#[test]
fn catalogs_are_in_ascending_registry_id_order() {
    let aead_ids: Vec<u16> = Aead::all().iter().map(|a| a.numeric_id()).collect();
    assert_eq!(aead_ids, vec![1, 2, 3]);
    let kdf_ids: Vec<u16> = Kdf::all().iter().map(|k| k.numeric_id()).collect();
    assert_eq!(kdf_ids, vec![1, 2, 3]);
    let kem_ids: Vec<u16> = Kem::all().iter().map(|k| k.numeric_id()).collect();
    assert_eq!(kem_ids, vec![16, 32]);
}

#[test]
fn lookup_error_messages_name_the_kind() {
    assert_eq!(
        Config::try_from_ids(9999, 1, 32).unwrap_err().message(),
        "aead not recognized"
    );
    assert_eq!(
        Config::try_from_ids(1, 9999, 32).unwrap_err().message(),
        "kdf not recognized"
    );
    assert_eq!(
        Config::try_from_ids(1, 1, 9999).unwrap_err().message(),
        "kem not recognized"
    );
}
