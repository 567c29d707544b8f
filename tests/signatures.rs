use sui_proto::bls12381::{
    BlstError, Bls12381PrivateKey, Bls12381Signature, Bls12381VerifyingKey, SignatureScheme,
};
use sui_proto::domain::Bls12381PublicKey;

fn key(seed: u8) -> Bls12381PrivateKey {
    Bls12381PrivateKey::generate([seed; 32])
}

#[test]
fn basic_signing() {
    for seed in [0u8, 1, 200] {
        let signer = key(seed);
        for message in [vec![], vec![1u8, 2, 3], b"hello world".to_vec()] {
            let signature = signer.try_sign(&message).unwrap();
            signer.verifying_key().verify(&message, &signature).unwrap();
        }
    }
}

#[test]
fn verify_rejects_other_message_and_key() {
    let signer = key(7);
    let signature = signer.try_sign(b"one").unwrap();
    let e = signer.verifying_key().verify(b"two", &signature).unwrap_err();
    assert_eq!(e.source, BlstError::VerifyFail);
    let e = key(8).verifying_key().verify(b"one", &signature).unwrap_err();
    assert_eq!(e.source, BlstError::VerifyFail);
    let garbage = Bls12381Signature([0u8; 48]);
    assert!(signer.verifying_key().verify(b"one", &garbage).is_err());
}

#[test]
fn new_checks_the_scalar() {
    assert_eq!(Bls12381PrivateKey::new([0u8; 32]).err().map(|e| e.source), Some(BlstError::BadEncoding));
    assert!(Bls12381PrivateKey::new([0xffu8; 32]).is_err());
    let mut one = [0u8; 32];
    one[31] = 1;
    let k = Bls12381PrivateKey::new(one).unwrap();
    assert_eq!(k.scheme(), SignatureScheme::Bls12381);
    assert!(Bls12381PrivateKey::new([0x01u8; 32]).is_ok());
    let order: [u8; 32] = [
        0x73, 0xed, 0xa7, 0x53, 0x29, 0x9d, 0x7d, 0x48, 0x33, 0x39, 0xd8, 0x08, 0x09, 0xa1, 0xd8, 0x05,
        0x53, 0xbd, 0xa4, 0x02, 0xff, 0xfe, 0x5b, 0xfe, 0xff, 0xff, 0xff, 0xff, 0x00, 0x00, 0x00, 0x01,
    ];
    assert!(Bls12381PrivateKey::new(order).is_err());
    let mut below = order;
    below[31] = 0;
    assert!(Bls12381PrivateKey::new(below).is_ok());
}

#[test]
fn public_keys_agree() {
    let k = key(3);
    let pk = k.public_key();
    assert_eq!(k.verifying_key().public_key(), pk);
    assert_ne!(pk, key(4).public_key());
    let vk = Bls12381VerifyingKey::new(&pk).unwrap();
    let signature = k.try_sign(b"m").unwrap();
    vk.verify(b"m", &signature).unwrap();
    assert_eq!(Bls12381VerifyingKey::new(&Bls12381PublicKey([0u8; 96])).err().map(|e| e.source), Some(BlstError::BadEncoding));
}

#[test]
fn generation_is_deterministic() {
    assert_eq!(key(9).public_key(), key(9).public_key());
    let s1 = key(9).try_sign(b"x").unwrap();
    let s2 = key(9).try_sign(b"x").unwrap();
    assert_eq!(s1, s2);
}
