//! Known-answer tests: the published RFC 9180 test vectors, for every
//! base-mode vector whose (aead, kdf, kem) triple is enabled. `open` on the
//! provided ciphertext with the provided key, info and aad must reproduce
//! the provided plaintext exactly.

use hpke_dispatch::Config;

struct TestVector {
    aead_id: u16,
    kdf_id: u16,
    kem_id: u16,
    info: &'static str,
    encapped_key: &'static str,
    serialized_private_key: &'static str,
    aad: &'static str,
    ciphertext: &'static str,
    plaintext: &'static str,
}

fn vectors() -> Vec<TestVector> {
    vec![
        TestVector {
            aead_id: 1,
            kdf_id: 1,
            kem_id: 32,
            info: "4f6465206f6e2061204772656369616e2055726e",
            encapped_key: "37fda3567bdbd628e88668c3c8d7e97d1d1253b6d4ea6d44c150f741f1bf4431",
            serialized_private_key: "4612c550263fc8ad58375df3f557aac531d26850903e55a9f23f21d8534e8ac8",
            aad: "436f756e742d30",
            ciphertext: "f938558b5d72f1a23810b4be2ab4f84331acc02fc97babc53a52ae8218a355a96d8770ac83d07bea87e13c512a",
            plaintext: "4265617574792069732074727574682c20747275746820626561757479",
        },
        TestVector {
            aead_id: 2,
            kdf_id: 1,
            kem_id: 32,
            info: "4f6465206f6e2061204772656369616e2055726e",
            encapped_key: "6c93e09869df3402d7bf231bf540fadd35cd56be14f97178f0954db94b7fc256",
            serialized_private_key: "497b4502664cfea5d5af0b39934dac72242a74f8480451e1aee7d6a53320333d",
            aad: "436f756e742d30",
            ciphertext: "e5d84cd531cfb583096e7cfa9641bd3079cf3a91cda813c52deb5f512be9931980a41de125a925cdad859d5b7a",
            plaintext: "4265617574792069732074727574682c20747275746820626561757479",
        },
        TestVector {
            aead_id: 3,
            kdf_id: 1,
            kem_id: 32,
            info: "4f6465206f6e2061204772656369616e2055726e",
            encapped_key: "1afa08d3dec047a643885163f1180476fa7ddb54c6a8029ea33f95796bf2ac4a",
            serialized_private_key: "8057991eef8f1f1af18f4a9491d16a1ce333f695d4db8e38da75975c4478e0fb",
            aad: "436f756e742d30",
            ciphertext: "1c5250d8034ec2b784ba2cfd69dbdb8af406cfe3ff938e131f0def8c8b60b4db21993c62ce81883d2dd1b51a28",
            plaintext: "4265617574792069732074727574682c20747275746820626561757479",
        },
        TestVector {
            aead_id: 1,
            kdf_id: 3,
            kem_id: 32,
            info: "4f6465206f6e2061204772656369616e2055726e",
            encapped_key: "8998da4c3d6ade83c53e861a022c046db909f1c31107196ab4c2f4dd37e1a949",
            serialized_private_key: "ddfbb71d7ea8ebd98fa9cc211aa7b535d258fe9ab4a08bc9896af270e35aad35",
            aad: "436f756e742d30",
            ciphertext: "d3a676359d7db814f1f7a12cbe98ab334c834e14d61def40616dfc7e53dc5fc92e1e05d8c8139596dc8e7b04f5",
            plaintext: "4265617574792069732074727574682c20747275746820626561757479",
        },
        TestVector {
            aead_id: 2,
            kdf_id: 3,
            kem_id: 32,
            info: "4f6465206f6e2061204772656369616e2055726e",
            encapped_key: "c12ba9fb91d7ebb03057d8bea4398688dcc1d1d1ff3b97f09b96b9bf89bd1e4a",
            serialized_private_key: "bdd8943c1e60191f3ea4e69fc4f322aa1086db9650f1f952fdce88395a4bd1af",
            aad: "436f756e742d30",
            ciphertext: "186cbeffd80fd68862b09d968a944c9f1ecc1c3f5dbcd1e26973ec30a9856f006f7bb472c3e30fff57ced669fc",
            plaintext: "4265617574792069732074727574682c20747275746820626561757479",
        },
        TestVector {
            aead_id: 3,
            kdf_id: 3,
            kem_id: 32,
            info: "4f6465206f6e2061204772656369616e2055726e",
            encapped_key: "1d38fc578d4209ea0ef3ee5f1128ac4876a9549d74dc2d2f46e75942a6188244",
            serialized_private_key: "fad15f488c09c167bd18d8f48f282e30d944d624c5676742ad820119de44ea91",
            aad: "436f756e742d30",
            ciphertext: "72da9627fd7eb3a8b7169c6d97419b80adefca751c6b52b39a2e084d35ce3eb4487aadaca5a9c590e0938c48b9",
            plaintext: "4265617574792069732074727574682c20747275746820626561757479",
        },
        TestVector {
            aead_id: 1,
            kdf_id: 1,
            kem_id: 16,
            info: "4f6465206f6e2061204772656369616e2055726e",
            encapped_key: "04a92719c6195d5085104f469a8b9814d5838ff72b60501e2c4466e5e67b325ac98536d7b61a1af4b78e5b7f951c0900be863c403ce65c9bfcb9382657222d18c4",
            serialized_private_key: "f3ce7fdae57e1a310d87f1ebbde6f328be0a99cdbcadf4d6589cf29de4b8ffd2",
            aad: "436f756e742d30",
            ciphertext: "5ad590bb8baa577f8619db35a36311226a896e7342a6d836d8b7bcd2f20b6c7f9076ac232e3ab2523f39513434",
            plaintext: "4265617574792069732074727574682c20747275746820626561757479",
        },
        TestVector {
            aead_id: 2,
            kdf_id: 1,
            kem_id: 16,
            info: "4f6465206f6e2061204772656369616e2055726e",
            encapped_key: "04c06b4f6bebc7bb495cb797ab753f911aff80aefb86fd8b6fcc35525f3ab5f03e0b21bd31a86c6048af3cb2d98e0d3bf01da5cc4c39ff5370d331a4f1f7d5a4e0",
            serialized_private_key: "317f915db7bc629c48fe765587897e01e282d3e8445f79f27f65d031a88082b2",
            aad: "436f756e742d30",
            ciphertext: "58c61a45059d0c5704560e9d88b564a8b63f1364b8d1fcb3c4c6ddc1d291742465e902cd216f8908da49f8f96f",
            plaintext: "4265617574792069732074727574682c20747275746820626561757479",
        },
        TestVector {
            aead_id: 3,
            kdf_id: 1,
            kem_id: 16,
            info: "4f6465206f6e2061204772656369616e2055726e",
            encapped_key: "04c07836a0206e04e31d8ae99bfd549380b072a1b1b82e563c935c095827824fc1559eac6fb9e3c70cd3193968994e7fe9781aa103f5b50e934b5b2f387e381291",
            serialized_private_key: "a4d1c55836aa30f9b3fbb6ac98d338c877c2867dd3a77396d13f68d3ab150d3b",
            aad: "436f756e742d30",
            ciphertext: "6469c41c5c81d3aa85432531ecf6460ec945bde1eb428cb2fedf7a29f5a685b4ccb0d057f03ea2952a27bb458b",
            plaintext: "4265617574792069732074727574682c20747275746820626561757479",
        },
        TestVector {
            aead_id: 1,
            kdf_id: 3,
            kem_id: 16,
            info: "4f6465206f6e2061204772656369616e2055726e",
            encapped_key: "0493ed86735bdfb978cc055c98b45695ad7ce61ce748f4dd63c525a3b8d53a15565c6897888070070c1579db1f86aaa56deb8297e64db7e8924e72866f9a472580",
            serialized_private_key: "3ac8530ad1b01885960fab38cf3cdc4f7aef121eaa239f222623614b4079fb38",
            aad: "436f756e742d30",
            ciphertext: "d3cf4984931484a080f74c1bb2a6782700dc1fef9abe8442e44a6f09044c88907200b332003543754eb51917ba",
            plaintext: "4265617574792069732074727574682c20747275746820626561757479",
        },
        TestVector {
            aead_id: 2,
            kdf_id: 3,
            kem_id: 16,
            info: "4f6465206f6e2061204772656369616e2055726e",
            encapped_key: "0404dc39344526dbfa728afba96986d575811b5af199c11f821a0e603a4d191b25544a402f25364964b2c129cb417b3c1dab4dfc0854f3084e843f731654392726",
            serialized_private_key: "9648e8711e9b6cb12dc19abf9da350cf61c3669c017b1db17bb36913b54a051d",
            aad: "436f756e742d30",
            ciphertext: "949f58e87c39b3f55390b6a970de27dfac44aadc2fbc9d623dcde1a08b628c83ad07dbbee6aede7fcfbf955670",
            plaintext: "4265617574792069732074727574682c20747275746820626561757479",
        },
        TestVector {
            aead_id: 3,
            kdf_id: 3,
            kem_id: 16,
            info: "4f6465206f6e2061204772656369616e2055726e",
            encapped_key: "044415d6537c2e9dd4c8b73f2868b5b9e7e8e3d836990dc2fd5b466d1324c88f2df8436bac7aa2e6ebbfd13bd09eaaa7c57c7495643bacba2121dca2f2040e1c5f",
            serialized_private_key: "ebedc3ca088ad03dfbbfcd43f438c4bb5486376b8ccaea0dc25fc64b2f7fc0da",
            aad: "436f756e742d30",
            ciphertext: "81a1f54372913f6dd88f45d7889dab174942baef7b1f3a32ee42058bd4b5ca5e8323301420b9e3f3c7b56fa8b4",
            plaintext: "4265617574792069732074727574682c20747275746820626561757479",
        },
    ]
}

#[test]
fn decrypt_test_vectors() {
    for test_vector in vectors() {
        let config =
            Config::try_from_ids(test_vector.aead_id, test_vector.kdf_id, test_vector.kem_id)
                .expect("every inlined vector names an enabled configuration");

        let private_key = hex::decode(test_vector.serialized_private_key).unwrap();
        let encapped_key = hex::decode(test_vector.encapped_key).unwrap();
        let info = hex::decode(test_vector.info).unwrap();
        let ciphertext = hex::decode(test_vector.ciphertext).unwrap();
        let aad = hex::decode(test_vector.aad).unwrap();
        let expected_plaintext = hex::decode(test_vector.plaintext).unwrap();

        let plaintext = config
            .base_mode_open(&private_key, &encapped_key, &info, &ciphertext, &aad)
            .unwrap_or_else(|e| panic!("{e:?}\n\n{config:?}"));

        assert_eq!(plaintext, expected_plaintext);
    }
}
