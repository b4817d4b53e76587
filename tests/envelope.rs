use relay_mail::envelope::{key_from_bytes, token_from_bytes, AesData, CryptoError, RsaData};
use relay_mail::message::{Credentials, InboundMessage, OutboundMessage};
use rsa::rand_core::OsRng;
use rsa::RsaPrivateKey;

fn small_key() -> RsaPrivateKey {
    RsaPrivateKey::new(&mut OsRng, 512).unwrap()
}

fn key16() -> Vec<u8> {
    (1u8..=16).collect()
}

#[test]
fn aes_round_trip_restores_bytes() {
    let plain = b"store and forward".to_vec();
    let sealed = AesData::new(&plain, &key16()).unwrap();
    assert_ne!(sealed.data, plain);
    assert_eq!(sealed.data.len(), 16 + 32);
    assert_eq!(sealed.get(&key16()).unwrap(), plain);
}

#[test]
fn aes_seals_with_a_fresh_iv_each_time() {
    let plain = b"same text".to_vec();
    let a = AesData::new(&plain, &key16()).unwrap();
    let b = AesData::new(&plain, &key16()).unwrap();
    assert_ne!(a.data, b.data);
    assert_eq!(a.get(&key16()).unwrap(), plain);
    assert_eq!(b.get(&key16()).unwrap(), plain);
}

#[test]
fn aes_rejects_missing_iv() {
    let short = AesData { data: vec![0u8; 15] };
    assert!(matches!(short.get(&key16()), Err(CryptoError::Decryption)));
}

#[test]
fn aes_empty_plaintext_takes_one_block() {
    let sealed = AesData::new(&Vec::new(), &key16()).unwrap();
    assert_eq!(sealed.data.len(), 16 + 16);
    assert_eq!(sealed.get(&key16()).unwrap(), Vec::<u8>::new());
}

#[test]
fn aes_rejects_bad_key_length() {
    let r = AesData::new(&vec![1, 2, 3], &vec![0u8; 15]);
    assert!(matches!(r, Err(CryptoError::Encryption)));
    let r = AesData::new(&vec![1, 2, 3], &vec![0u8; 24]);
    assert!(r.is_ok());
}

#[test]
fn aes_rejects_partial_block() {
    let bad = AesData { data: vec![0u8; 16 + 17] };
    assert!(matches!(bad.get(&key16()), Err(CryptoError::Decryption)));
}

#[test]
fn aes_set_keeps_contents_on_failure() {
    let mut env = AesData::new(&vec![5, 6], &key16()).unwrap();
    let before = env.data.clone();
    assert!(env.set(&vec![1u8; 3], &vec![9]).is_err());
    assert_eq!(env.data, before);
    assert!(env.set(&key16(), &vec![9]).is_ok());
    assert_eq!(env.get(&key16()).unwrap(), vec![9]);
}

#[test]
fn rsa_round_trip_restores_bytes() {
    let k = small_key();
    let plain = vec![10u8, 20, 30];
    let sealed = RsaData::new(&plain, &k.to_public_key()).unwrap();
    assert_ne!(sealed.data, plain);
    assert_eq!(sealed.get(&k).unwrap(), plain);
}

#[test]
fn rsa_rejects_oversized_payload() {
    let k = small_key();
    let r = RsaData::new(&vec![0u8; 200], &k.to_public_key());
    assert!(matches!(r, Err(CryptoError::Encryption)));
}

#[test]
fn rsa_set_replaces_contents() {
    let k = small_key();
    let mut env = RsaData::new(&vec![1], &k.to_public_key()).unwrap();
    env.set(&k.to_public_key(), &vec![2, 3]).unwrap();
    assert_eq!(env.get(&k).unwrap(), vec![2, 3]);
}

#[test]
fn token_round_trip() {
    let k = small_key();
    let t: u128 = 0x0123_4567_89ab_cdef_0011_2233_4455_6677;
    let sealed = RsaData::seal_token(t, &k.to_public_key()).unwrap();
    assert_eq!(sealed.open_token(&k).unwrap(), t);
}

#[test]
fn session_key_round_trip() {
    let k = small_key();
    let sk = key16();
    let sealed = RsaData::seal_key(&sk, &k.to_public_key()).unwrap();
    assert_eq!(sealed.open_key(&k).unwrap(), sk);
}

#[test]
fn token_bytes_are_little_endian() {
    let mut b = vec![0u8; 16];
    b[0] = 0x01;
    b[1] = 0x02;
    assert_eq!(token_from_bytes(&b).unwrap(), 0x0201);
    b.push(0xff);
    assert_eq!(token_from_bytes(&b).unwrap(), 0x0201);
    assert!(matches!(token_from_bytes(&vec![0u8; 15]), Err(CryptoError::Malformed)));
}

#[test]
fn key_bytes_are_length_prefixed() {
    let b = vec![3u8, 0, 0, 0, 0, 0, 0, 0, 9, 8, 7, 6];
    assert_eq!(key_from_bytes(&b).unwrap(), vec![9, 8, 7]);
    let short = vec![4u8, 0, 0, 0, 0, 0, 0, 0, 9, 8, 7];
    assert!(matches!(key_from_bytes(&short), Err(CryptoError::Malformed)));
    assert!(matches!(key_from_bytes(&vec![0u8; 7]), Err(CryptoError::Malformed)));
}

#[test]
fn credentials_round_trip() {
    let c = Credentials { username: "alice".to_string(), pw_digest: "abc123".to_string() };
    let sealed = AesData::seal_credentials(&c, &key16()).unwrap();
    let back = sealed.open_credentials(&key16()).unwrap();
    assert_eq!(back.username, "alice");
    assert_eq!(back.pw_digest, "abc123");
}

#[test]
fn outbound_round_trip() {
    let m = OutboundMessage {
        recipients: vec!["bob".to_string(), "carol".to_string()],
        contents: "hi".to_string(),
    };
    let sealed = AesData::seal_outbound(&m, &key16()).unwrap();
    let back = sealed.open_outbound(&key16()).unwrap();
    assert_eq!(back.recipients, vec!["bob".to_string(), "carol".to_string()]);
    assert_eq!(back.contents, "hi");
}

#[test]
fn inbound_round_trip() {
    let m = InboundMessage {
        sender: "alice".to_string(),
        recipients: vec!["bob".to_string()],
        contents: "".to_string(),
    };
    let sealed = AesData::seal_inbound(&m, &key16()).unwrap();
    let back = sealed.open_inbound(&key16()).unwrap();
    assert_eq!(back.sender, "alice");
    assert_eq!(back.recipients, vec!["bob".to_string()]);
    assert_eq!(back.contents, "");
}

#[test]
fn opening_with_wrong_key_fails() {
    let c = Credentials { username: "alice".to_string(), pw_digest: "d".to_string() };
    let sealed = AesData::seal_credentials(&c, &key16()).unwrap();
    let other: Vec<u8> = vec![7u8; 16];
    assert!(sealed.open_credentials(&other).is_err());
}

#[test]
fn opening_garbage_is_malformed() {
    let sealed = AesData::new(&vec![200u8, 1, 2], &key16()).unwrap();
    assert!(matches!(sealed.open_credentials(&key16()), Err(CryptoError::Malformed)));
    assert!(matches!(sealed.open_inbound(&key16()), Err(CryptoError::Malformed)));
}

#[test]
fn aes_rejects_wrong_key_length_on_open() {
    let sealed = AesData::new(&vec![1, 2, 3], &key16()).unwrap();
    assert!(matches!(sealed.get(&vec![0u8; 10]), Err(CryptoError::Decryption)));
}

#[test]
fn rsa_open_with_other_key_fails() {
    let k = small_key();
    let other = small_key();
    let sealed = RsaData::seal_token(7, &k.to_public_key()).unwrap();
    assert!(matches!(sealed.open_token(&other), Err(CryptoError::Decryption)));
    assert!(matches!(sealed.get(&other), Err(CryptoError::Decryption)));
}

#[test]
fn rsa_token_envelope_holding_short_bytes_is_malformed() {
    let k = small_key();
    let sealed = RsaData::new(&vec![1, 2, 3], &k.to_public_key()).unwrap();
    assert!(matches!(sealed.open_token(&k), Err(CryptoError::Malformed)));
    assert!(matches!(sealed.open_key(&k), Err(CryptoError::Malformed)));
}
