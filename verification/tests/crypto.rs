use luks_volume::crypto::{random_blob, CryptoError, DummyHSM, VirtualHSM, DUMMY_KEY_LEN};

#[test]
fn dummy_hsm_round_trip() {
    let hsm = DummyHSM::new();
    let blob = b"hello world".to_vec();
    let sealed = hsm.encrypt(blob.clone()).unwrap();
    assert_eq!(sealed, blob);
    assert_eq!(hsm.decrypt(sealed).unwrap(), blob);
    assert_eq!(hsm.encrypt(vec![]).unwrap(), Vec::<u8>::new());
}

#[test]
fn dummy_hsm_random_bytes() {
    let hsm = DummyHSM::new();
    let a = hsm.random_bytes().unwrap();
    let b = hsm.random_bytes().unwrap();
    assert_eq!(a.len(), DUMMY_KEY_LEN);
    assert_eq!(a.len(), 1024);
    // two draws of 1024 random bytes agree with negligible probability
    assert_ne!(a, b);
}

#[test]
fn random_blob_lengths() {
    assert_eq!(random_blob(0).unwrap().len(), 0);
    assert_eq!(random_blob(17).unwrap().len(), 17);
}

#[test]
fn crypto_error_text() {
    assert_eq!(CryptoError::InvalidKey.to_string(), "Invalid Key");
    assert_eq!(CryptoError::UnableToEncrypt("x".to_string()).to_string(), "Unknown");
    assert_eq!(CryptoError::UnableToDecrypt("y".to_string()).to_string(), "Unknown");
}
