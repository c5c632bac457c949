use yubikey_mgm::algorithm::SlotAlgorithmId;
use yubikey_mgm::key::{CB_ADMIN_SALT, DEFAULT_KEY_BYTES};
use yubikey_mgm::weak::{is_weak_key, WEAK_DES_KEYS};
use yubikey_mgm::{Error, MgmAlgorithmId, MgmKey, MgmType};

const ALGORITHMS: [MgmAlgorithmId; 4] = [
    MgmAlgorithmId::ThreeDes,
    MgmAlgorithmId::Aes128,
    MgmAlgorithmId::Aes192,
    MgmAlgorithmId::Aes256,
];

/// `len` bytes that count up from zero.
fn counting(len: usize) -> Vec<u8> {
    (0..len).map(|i| i as u8).collect()
}

fn error_of<T>(result: Result<T, Error>) -> Option<Error> {
    result.err()
}

#[test]
fn mgm_types_are_numbered_from_zero() {
    assert_eq!(MgmType::Manual as u8, 0);
    assert_eq!(MgmType::Derived as u8, 1);
    assert_eq!(MgmType::Protected as u8, 2);
}

#[test]
fn algorithm_codes() {
    assert_eq!(MgmAlgorithmId::try_from(0x03), Ok(MgmAlgorithmId::ThreeDes));
    assert_eq!(MgmAlgorithmId::try_from(0x08), Ok(MgmAlgorithmId::Aes128));
    assert_eq!(MgmAlgorithmId::try_from(0x0A), Ok(MgmAlgorithmId::Aes192));
    assert_eq!(MgmAlgorithmId::try_from(0x0C), Ok(MgmAlgorithmId::Aes256));
    assert_eq!(MgmAlgorithmId::Aes192.ty_code(), 0x0A);
    for code in 0..=255u8 {
        match MgmAlgorithmId::try_from(code) {
            Ok(algo) => assert_eq!(u8::from(algo), code),
            Err(e) => assert_eq!(e, Error::AlgorithmError),
        }
    }
    for algo in ALGORITHMS {
        assert_eq!(MgmAlgorithmId::try_from(algo.ty_code()), Ok(algo));
    }
}

#[test]
fn algorithm_lengths() {
    let lengths: Vec<(usize, usize)> = ALGORITHMS
        .iter()
        .map(|algo| (algo.key_len(), algo.challenge_len()))
        .collect();
    assert_eq!(lengths, vec![(24, 8), (16, 16), (24, 16), (32, 16)]);
}

#[test]
fn query_reads_the_metadata_of_the_slot() {
    for algo in ALGORITHMS {
        assert_eq!(
            MgmAlgorithmId::query(Ok(SlotAlgorithmId::Management(algo))),
            Ok(algo)
        );
    }
    assert_eq!(
        MgmAlgorithmId::query(Ok(SlotAlgorithmId::Other)),
        Err(Error::InvalidObject)
    );
    assert_eq!(
        MgmAlgorithmId::query(Err(Error::NotSupported)),
        Ok(MgmAlgorithmId::ThreeDes)
    );
    assert_eq!(
        MgmAlgorithmId::query(Err(Error::AlgorithmError)),
        Err(Error::NotSupported)
    );
    assert_eq!(
        MgmAlgorithmId::query(Err(Error::Device { code: 7 })),
        Err(Error::Device { code: 7 })
    );
}

#[test]
fn default_keys() {
    let key = MgmKey::default();
    assert_eq!(key.algo(), MgmAlgorithmId::ThreeDes);
    assert_eq!(key.as_ref(), DEFAULT_KEY_BYTES.as_slice());
    let key = MgmKey::default_aes();
    assert_eq!(key.algo(), MgmAlgorithmId::Aes192);
    assert_eq!(
        key.as_ref(),
        [1, 2, 3, 4, 5, 6, 7, 8, 1, 2, 3, 4, 5, 6, 7, 8, 1, 2, 3, 4, 5, 6, 7, 8]
    );
    assert!(!is_weak_key(&DEFAULT_KEY_BYTES));
}

#[test]
fn empty_keys_are_zero() {
    for algo in ALGORITHMS {
        let key = MgmKey::empty(algo);
        assert_eq!(key.algo(), algo);
        assert_eq!(key.as_ref(), vec![0u8; algo.key_len()]);
    }
    // zeroes are a weak 3DES key up to parity
    assert!(is_weak_key(&[0u8; 24]));
}

#[test]
fn generated_keys_are_random_aes192_keys() {
    let a = MgmKey::generate();
    let b = MgmKey::generate();
    assert_eq!(a.algo(), MgmAlgorithmId::Aes192);
    assert_eq!(a.as_ref().len(), 24);
    assert_ne!(a.as_ref(), [0u8; 24]);
    assert_ne!(a.as_ref(), b.as_ref());
    assert_eq!(MgmKey::from_random([9; 24]).as_ref(), [9u8; 24]);
    assert_eq!(MgmKey::from_random([9; 24]).algo(), MgmAlgorithmId::Aes192);
}

#[test]
fn keys_are_recovered_from_their_bytes() {
    for algo in ALGORITHMS {
        let bytes = counting(algo.key_len());
        let key = MgmKey::from_bytes_typed(&bytes, algo).unwrap();
        assert_eq!(key.algo(), algo);
        assert_eq!(key.as_ref(), bytes);
        let again = MgmKey::from_bytes_typed(key.as_ref(), key.algo()).unwrap();
        assert_eq!(again.algo(), key.algo());
        assert_eq!(again.as_ref(), key.as_ref());
        let new = MgmKey::new(bytes.clone(), algo).unwrap();
        assert_eq!(new.algo(), algo);
        assert_eq!(new.as_ref(), bytes);
        let cloned = new.clone();
        assert_eq!(cloned.algo(), algo);
        assert_eq!(cloned.as_ref(), bytes);
    }
}

#[test]
fn keys_of_the_wrong_size_are_refused() {
    for algo in ALGORITHMS {
        for len in [0, 8, algo.key_len() - 1, algo.key_len() + 1] {
            let bytes = counting(len);
            assert_eq!(
                error_of(MgmKey::from_bytes_typed(&bytes, algo)),
                Some(Error::SizeError)
            );
            assert_eq!(error_of(MgmKey::new(bytes, algo)), Some(Error::SizeError));
        }
    }
    assert_eq!(
        error_of(MgmKey::from_bytes(&counting(23))),
        Some(Error::SizeError)
    );
    assert_eq!(
        error_of(MgmKey::from_bytes(&counting(25))),
        Some(Error::SizeError)
    );
}

#[test]
fn weak_keys_are_refused_in_every_block_and_with_any_parity() {
    for weak in WEAK_DES_KEYS {
        for block in 0..3 {
            for flip in [0u8, 1] {
                let mut bytes = DEFAULT_KEY_BYTES;
                for j in 0..8 {
                    bytes[8 * block + j] = weak[j] ^ flip;
                }
                assert!(is_weak_key(&bytes));
                assert_eq!(error_of(MgmKey::from_bytes(&bytes)), Some(Error::KeyError));
                assert_eq!(
                    error_of(MgmKey::new(bytes.to_vec(), MgmAlgorithmId::ThreeDes)),
                    Some(Error::KeyError)
                );
                let typed = MgmKey::from_bytes_typed(&bytes, MgmAlgorithmId::ThreeDes);
                assert_eq!(typed.unwrap().as_ref(), bytes);
                // AES has no such keys
                assert!(MgmKey::new(bytes.to_vec(), MgmAlgorithmId::Aes192).is_ok());
                // one bit that DES uses makes the key a strong one
                bytes[8 * block] ^= 2;
                assert!(!is_weak_key(&bytes));
                assert!(MgmKey::from_bytes(&bytes).is_ok());
            }
        }
    }
}

#[test]
fn a_weak_key_has_to_fill_a_block() {
    let mut bytes = DEFAULT_KEY_BYTES;
    for j in 0..8 {
        bytes[4 + j] = 0x01;
    }
    assert!(!is_weak_key(&bytes));
}

#[test]
fn key_bytes_can_be_changed_in_place() {
    let mut key = MgmKey::empty(MgmAlgorithmId::Aes256);
    key.as_mut()[31] = 7;
    assert_eq!(key.as_ref()[31], 7);
    assert_eq!(key.as_ref()[30], 0);
    assert_eq!(key.algo(), MgmAlgorithmId::Aes256);
}

#[test]
fn a_wiped_key_is_zero() {
    for algo in ALGORITHMS {
        let mut key = MgmKey::new(counting(algo.key_len()), algo).unwrap();
        key.wipe();
        assert_eq!(key.algo(), algo);
        assert_eq!(key.as_ref(), vec![0u8; algo.key_len()]);
    }
}

#[test]
fn aes_known_answers() {
    let plain = [
        0x00, 0x11, 0x22, 0x33, 0x44, 0x55, 0x66, 0x77, 0x88, 0x99, 0xaa, 0xbb, 0xcc, 0xdd, 0xee,
        0xff,
    ];
    let answers: [(MgmAlgorithmId, [u8; 16]); 3] = [
        (
            MgmAlgorithmId::Aes128,
            [
                0x69, 0xc4, 0xe0, 0xd8, 0x6a, 0x7b, 0x04, 0x30, 0xd8, 0xcd, 0xb7, 0x80, 0x70, 0xb4,
                0xc5, 0x5a,
            ],
        ),
        (
            MgmAlgorithmId::Aes192,
            [
                0xdd, 0xa9, 0x7c, 0xa4, 0x86, 0x4c, 0xdf, 0xe0, 0x6e, 0xaf, 0x70, 0xa0, 0xec, 0x0d,
                0x71, 0x91,
            ],
        ),
        (
            MgmAlgorithmId::Aes256,
            [
                0x8e, 0xa2, 0xb7, 0xca, 0x51, 0x67, 0x45, 0xbf, 0xea, 0xfc, 0x49, 0x90, 0x4b, 0x49,
                0x60, 0x89,
            ],
        ),
    ];
    for (algo, cipher) in answers {
        let key = MgmKey::new(counting(algo.key_len()), algo).unwrap();
        assert_eq!(key.encrypt(&plain), Ok(cipher.to_vec()));
        assert_eq!(key.decrypt(&cipher), Ok(plain.to_vec()));
    }
}

#[test]
fn three_des_known_answer() {
    let key = MgmKey::from_bytes(&[
        0x01, 0x23, 0x45, 0x67, 0x89, 0xab, 0xcd, 0xef, 0x23, 0x45, 0x67, 0x89, 0xab, 0xcd, 0xef,
        0x01, 0x45, 0x67, 0x89, 0xab, 0xcd, 0xef, 0x01, 0x23,
    ])
    .unwrap();
    let plain = [0x54, 0x68, 0x65, 0x20, 0x71, 0x75, 0x66, 0x63];
    let cipher = [0xa8, 0x26, 0xfd, 0x8c, 0xe5, 0x3b, 0x85, 0x5f];
    assert_eq!(key.encrypt(&plain), Ok(cipher.to_vec()));
    assert_eq!(key.decrypt(&cipher), Ok(plain.to_vec()));
}

#[test]
fn decryption_undoes_encryption() {
    for algo in ALGORITHMS {
        let key = MgmKey::new(counting(algo.key_len()), algo).unwrap();
        let block = vec![0x5a; algo.challenge_len()];
        let cipher = key.encrypt(&block).unwrap();
        assert_ne!(cipher, block);
        assert_eq!(key.decrypt(&cipher), Ok(block.clone()));
        let plain = key.decrypt(&block).unwrap();
        assert_eq!(key.encrypt(&plain), Ok(block));
    }
}

#[test]
fn only_whole_blocks_are_encrypted() {
    for algo in ALGORITHMS {
        let key = MgmKey::empty(algo);
        for len in [0, algo.challenge_len() - 1, algo.challenge_len() + 1] {
            assert_eq!(key.encrypt(&counting(len)), Err(Error::SizeError));
            assert_eq!(key.decrypt(&counting(len)), Err(Error::SizeError));
        }
    }
}

#[test]
fn derived_keys_are_pbkdf2_of_the_pin() {
    let salt = counting(CB_ADMIN_SALT);
    let expected: [u8; 32] = [
        0x6f, 0x4f, 0x2d, 0x62, 0x18, 0x42, 0xbc, 0xdf, 0x52, 0xc4, 0x4e, 0xf7,
        0x3d, 0x28, 0xd6, 0x01, 0x70, 0x45, 0xe5, 0xd5, 0x43, 0xb5, 0x54, 0x7d,
        0x56, 0xdd, 0xda, 0x15, 0x24, 0xd0, 0x3c, 0xe1,
    ];
    let key = MgmKey::derive(MgmAlgorithmId::Aes256, b"123456", &salt).unwrap();
    assert_eq!(key.algo(), MgmAlgorithmId::Aes256);
    assert_eq!(key.as_ref(), expected);
    let key = MgmKey::derive(MgmAlgorithmId::ThreeDes, b"123456", &salt).unwrap();
    assert_eq!(key.algo(), MgmAlgorithmId::ThreeDes);
    assert_eq!(key.as_ref(), &expected[..24]);
}

#[test]
fn a_salt_of_the_wrong_size_is_refused() {
    for len in [0, 15, 17] {
        assert_eq!(
            error_of(MgmKey::derive(
                MgmAlgorithmId::Aes192,
                b"123456",
                &counting(len)
            )),
            Some(Error::GenericError)
        );
    }
}
