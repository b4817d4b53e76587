//! Confidentiality envelopes. An `RsaData` holds bytes encrypted to a
//! public key; an `AesData` holds bytes encrypted under a shared session
//! key. Typed helpers seal and open the protocol's payloads.
use crate::crypto::{
    aes_cbc_decryption, aes_cbc_encryption, aes_decrypt, aes_encrypt, credentials_decoding,
    credentials_encoding, decode_bytes, decode_credentials, decode_inbound, decode_outbound,
    decode_u128, encode_bytes, encode_credentials, encode_inbound, encode_outbound, encode_u128,
    inbound_decoding, inbound_encoding, le_value, outbound_decoding, outbound_encoding,
    generate_private_key, public_of, random_key_bytes, rsa_decrypt, rsa_decryption, rsa_encrypt,
    rsa_key_consistent, valid_aes_key,
};
use crate::message::{strings_view, Credentials, InboundMessage, OutboundMessage};
use rsa::{RsaPrivateKey, RsaPublicKey};
use vstd::prelude::*;

verus! {

/// Why sealing or opening an envelope failed.
#[derive(PartialEq, Eq, Structural, Debug, Clone, Copy)]
pub enum CryptoError {
    /// The encryption primitive refused the payload or the key.
    Encryption,
    /// The ciphertext did not decrypt under the key.
    Decryption,
    /// The plaintext was not the encoding of the expected value.
    Malformed,
    /// No key pair could be generated.
    KeyGeneration,
}

/// Bytes encrypted to an RSA public key (PKCS#1 v1.5).
pub struct RsaData {
    pub data: Vec<u8>,
}

/// Bytes encrypted under a shared AES key (CBC, PKCS#7 padding): a fresh
/// random 16-byte initialisation vector, then the ciphertext.
pub struct AesData {
    pub data: Vec<u8>,
}

/// `b` is the sixteen-byte encoding of token `t`.
pub open spec fn token_encoded(b: Seq<u8>, t: u128) -> bool {
    b.len() == 16 && le_value(b) == t
}

/// The token that the bytes `b` encode, if any.
pub open spec fn token_decoded(b: Seq<u8>) -> Option<u128> {
    if b.len() >= 16 {
        Some(le_value(b.take(16)) as u128)
    } else {
        None
    }
}

/// `b` is the length-prefixed encoding of the byte string `k`.
pub open spec fn key_encoded(b: Seq<u8>, k: Seq<u8>) -> bool {
    b.len() == 8 + k.len() && le_value(b.take(8)) == k.len() && b.skip(8) == k
}

/// The byte string that the bytes `b` encode, if any.
pub open spec fn key_decoded(b: Seq<u8>) -> Option<Seq<u8>> {
    if b.len() >= 8 && 8 + le_value(b.take(8)) <= b.len() {
        Some(b.subrange(8, 8 + le_value(b.take(8)) as int))
    } else {
        None
    }
}

/// Decoding the encoding of a token gives the token back.
pub proof fn lemma_token_round_trip(b: Seq<u8>, t: u128)
    requires
        token_encoded(b, t),
    ensures
        token_decoded(b) == Some(t),
{
    assert(b.take(16) =~= b);
}

/// Decoding the encoding of a byte string gives the byte string back.
pub proof fn lemma_key_round_trip(b: Seq<u8>, k: Seq<u8>)
    requires
        key_encoded(b, k),
    ensures
        key_decoded(b) == Some(k),
{
    assert(b.subrange(8, 8 + k.len() as int) =~= b.skip(8));
}

/// `data` is `plain` sealed under `key`: an initialisation vector, then
/// the encryption under it.
pub open spec fn aes_sealed(data: Seq<u8>, plain: Seq<u8>, key: Seq<u8>) -> bool {
    data.len() >= 16 && data.skip(16) == aes_cbc_encryption(plain, key, data.take(16))
}

/// What decrypting the sealed bytes `data` under `key` yields.
pub open spec fn aes_opened(data: Seq<u8>, key: Seq<u8>) -> Option<Seq<u8>> {
    if data.len() < 16 {
        None
    } else {
        aes_cbc_decryption(data.skip(16), key, data.take(16))
    }
}

/// Which failure opening a typed AES envelope reports: the decryption,
/// or else the decoding of what it gave.
pub open spec fn opening_error(c: Seq<u8>, k: Seq<u8>) -> CryptoError {
    if aes_opened(c, k) is None {
        CryptoError::Decryption
    } else {
        CryptoError::Malformed
    }
}

/// What opening an AES envelope of credentials yields.
pub open spec fn credentials_opened(c: Seq<u8>, k: Seq<u8>) -> Option<(Seq<char>, Seq<char>)> {
    match aes_opened(c, k) {
        Some(p) => credentials_decoding(p),
        None => None,
    }
}

/// What opening an AES envelope of an outbound message yields.
pub open spec fn outbound_opened(c: Seq<u8>, k: Seq<u8>) -> Option<(Seq<Seq<char>>, Seq<char>)> {
    match aes_opened(c, k) {
        Some(p) => outbound_decoding(p),
        None => None,
    }
}

/// What opening an AES envelope of an inbound message yields.
pub open spec fn inbound_opened(c: Seq<u8>, k: Seq<u8>) -> Option<
    (Seq<char>, Seq<Seq<char>>, Seq<char>),
> {
    match aes_opened(c, k) {
        Some(p) => inbound_decoding(p),
        None => None,
    }
}

/// The token encoded by some bytes; the bytes are what an RSA decryption
/// handed back.
pub fn token_from_bytes(b: &Vec<u8>) -> (r: Result<u128, CryptoError>)
    ensures
        r is Ok <==> token_decoded(b@) is Some,
        r is Ok ==> r->Ok_0 == token_decoded(b@).unwrap(),
        r is Err ==> r == Err::<u128, CryptoError>(CryptoError::Malformed),
{
    match decode_u128(b.as_slice()) {
        Some(t) => Ok(t),
        None => Err(CryptoError::Malformed),
    }
}

/// The byte string encoded by some bytes; the bytes are what an RSA
/// decryption handed back.
pub fn key_from_bytes(b: &Vec<u8>) -> (r: Result<Vec<u8>, CryptoError>)
    ensures
        r is Ok <==> key_decoded(b@) is Some,
        r is Ok ==> r->Ok_0@ == key_decoded(b@).unwrap(),
        r is Err ==> r->Err_0 == CryptoError::Malformed,
{
    match decode_bytes(b.as_slice()) {
        Some(k) => Ok(k),
        None => Err(CryptoError::Malformed),
    }
}

/// `data` decrypts to `plain` under every consistent private key whose
/// public half is `key`.
pub open spec fn rsa_sealed(data: Seq<u8>, key: RsaPublicKey, plain: Seq<u8>) -> bool {
    forall|k: RsaPrivateKey|
        public_of(k) == key && rsa_key_consistent(k) ==> #[trigger] rsa_decryption(k, data) == Some(
            plain,
        )
}

/// The token that `data` holds when opened with `key`, if any.
pub open spec fn token_opened(key: RsaPrivateKey, data: Seq<u8>) -> Option<u128> {
    match rsa_decryption(key, data) {
        Some(b) => token_decoded(b),
        None => None,
    }
}

/// The byte string that `data` holds when opened with `key`, if any.
pub open spec fn key_opened(key: RsaPrivateKey, data: Seq<u8>) -> Option<Seq<u8>> {
    match rsa_decryption(key, data) {
        Some(b) => key_decoded(b),
        None => None,
    }
}

/// `data` opens to token `t` under every consistent private key whose
/// public half is `key`.
pub open spec fn token_sealed(data: Seq<u8>, key: RsaPublicKey, t: u128) -> bool {
    forall|k: RsaPrivateKey|
        public_of(k) == key && rsa_key_consistent(k) ==> #[trigger] token_opened(k, data) == Some(t)
}

/// `data` opens to the byte string `v` under every consistent private key
/// whose public half is `key`.
pub open spec fn key_sealed(data: Seq<u8>, key: RsaPublicKey, v: Seq<u8>) -> bool {
    forall|k: RsaPrivateKey|
        public_of(k) == key && rsa_key_consistent(k) ==> #[trigger] key_opened(k, data) == Some(v)
}

/// Which failure opening a typed RSA envelope reports: the decryption, or
/// else the decoding of what it gave.
pub open spec fn rsa_opening_error(key: RsaPrivateKey, data: Seq<u8>) -> CryptoError {
    if rsa_decryption(key, data) is None {
        CryptoError::Decryption
    } else {
        CryptoError::Malformed
    }
}

/// A fresh 2048-bit RSA key pair; a generated key is always consistent.
pub fn new_private_key() -> (r: Result<RsaPrivateKey, CryptoError>)
    ensures
        r is Ok ==> rsa_key_consistent(r->Ok_0),
        r is Err ==> r->Err_0 == CryptoError::KeyGeneration,
{
    match generate_private_key() {
        Ok(k) => Ok(k),
        Err(_) => Err(CryptoError::KeyGeneration),
    }
}

impl RsaData {
    /// Encrypts `plain` to `key`. The ciphertext is randomised; what is
    /// known of a success is that the matching private key opens it to
    /// `plain`.
    pub fn new(plain: &Vec<u8>, key: &RsaPublicKey) -> (r: Result<RsaData, CryptoError>)
        ensures
            r is Ok ==> rsa_sealed(r->Ok_0.data@, *key, plain@),
            r is Err ==> r->Err_0 == CryptoError::Encryption,
    {
        match rsa_encrypt(key, plain.as_slice()) {
            Ok(c) => Ok(RsaData { data: c }),
            Err(_) => Err(CryptoError::Encryption),
        }
    }

    /// Decrypts with the private key.
    pub fn get(&self, key: &RsaPrivateKey) -> (r: Result<Vec<u8>, CryptoError>)
        ensures
            r is Ok <==> rsa_decryption(*key, self.data@) is Some,
            r is Ok ==> rsa_decryption(*key, self.data@) == Some(r->Ok_0@),
            r is Err ==> r->Err_0 == CryptoError::Decryption,
            forall|p: Seq<u8>|
                rsa_key_consistent(*key) && #[trigger] rsa_sealed(self.data@, public_of(*key), p)
                    ==> r is Ok && r->Ok_0@ == p,
    {
        match rsa_decrypt(key, self.data.as_slice()) {
            Ok(p) => Ok(p),
            Err(_) => Err(CryptoError::Decryption),
        }
    }

    /// Replaces the contents with `plain` encrypted to `key`; on failure
    /// the envelope is left as it was.
    pub fn set(&mut self, key: &RsaPublicKey, plain: &Vec<u8>) -> (r: Result<(), CryptoError>)
        ensures
            r is Ok ==> rsa_sealed(final(self).data@, *key, plain@),
            r is Err ==> final(self).data@ == old(self).data@ && r->Err_0 == CryptoError::Encryption,
    {
        let sealed = RsaData::new(plain, key);
        match sealed {
            Ok(d) => {
                *self = d;
                Ok(())
            },
            Err(e) => Err(e),
        }
    }

    /// Seals a session token to a public key.
    pub fn seal_token(token: u128, key: &RsaPublicKey) -> (r: Result<RsaData, CryptoError>)
        ensures
            r is Ok ==> token_sealed(r->Ok_0.data@, *key, token),
            r is Err ==> r->Err_0 == CryptoError::Encryption,
    {
        match encode_u128(token) {
            Some(b) => {
                let r = RsaData::new(&b, key);
                proof {
                    lemma_token_round_trip(b@, token);
                }
                r
            },
            None => Err(CryptoError::Encryption),
        }
    }

    /// Opens a sealed session token.
    pub fn open_token(&self, key: &RsaPrivateKey) -> (r: Result<u128, CryptoError>)
        ensures
            r is Ok <==> token_opened(*key, self.data@) is Some,
            r is Ok ==> token_opened(*key, self.data@) == Some(r->Ok_0),
            r is Err ==> r->Err_0 == rsa_opening_error(*key, self.data@),
    {
        match self.get(key) {
            Ok(b) => token_from_bytes(&b),
            Err(e) => Err(e),
        }
    }

    /// Seals a session key to a public key.
    pub fn seal_key(k: &Vec<u8>, key: &RsaPublicKey) -> (r: Result<RsaData, CryptoError>)
        ensures
            r is Ok ==> key_sealed(r->Ok_0.data@, *key, k@),
            r is Err ==> r->Err_0 == CryptoError::Encryption,
    {
        match encode_bytes(k) {
            Some(b) => {
                let r = RsaData::new(&b, key);
                proof {
                    lemma_key_round_trip(b@, k@);
                }
                r
            },
            None => Err(CryptoError::Encryption),
        }
    }

    /// Opens a sealed session key.
    pub fn open_key(&self, key: &RsaPrivateKey) -> (r: Result<Vec<u8>, CryptoError>)
        ensures
            r is Ok <==> key_opened(*key, self.data@) is Some,
            r is Ok ==> key_opened(*key, self.data@) == Some(r->Ok_0@),
            r is Err ==> r->Err_0 == rsa_opening_error(*key, self.data@),
    {
        match self.get(key) {
            Ok(b) => key_from_bytes(&b),
            Err(e) => Err(e),
        }
    }
}

impl AesData {
    /// Encrypts `plain` under `key` with a fresh random initialisation
    /// vector; fails exactly when the key is not an AES key length.
    pub fn new(plain: &Vec<u8>, key: &Vec<u8>) -> (r: Result<AesData, CryptoError>)
        ensures
            r is Ok <==> valid_aes_key(key@),
            r is Ok ==> aes_sealed(r->Ok_0.data@, plain@, key@),
            r is Ok ==> aes_opened(r->Ok_0.data@, key@) == Some(plain@),
            r is Err ==> r->Err_0 == CryptoError::Encryption,
    {
        let iv = random_key_bytes();
        match aes_encrypt(plain.as_slice(), key.as_slice(), iv.as_slice()) {
            Some(c) => {
                let mut data = iv;
                let mut c = c;
                let ghost ivs = data@;
                let ghost cs = c@;
                data.append(&mut c);
                assert(data@.take(16) =~= ivs);
                assert(data@.skip(16) =~= cs);
                Ok(AesData { data })
            },
            None => Err(CryptoError::Encryption),
        }
    }

    /// Decrypts under `key`; it gives back what `new` sealed under the
    /// same key.
    pub fn get(&self, key: &Vec<u8>) -> (r: Result<Vec<u8>, CryptoError>)
        ensures
            r is Ok <==> aes_opened(self.data@, key@) is Some,
            r is Ok ==> Some(r->Ok_0@) == aes_opened(self.data@, key@),
            r is Err ==> r->Err_0 == CryptoError::Decryption,
            self.data@.len() < 16 || self.data@.len() % 16 != 0 ==> r is Err,
            !valid_aes_key(key@) ==> r is Err,
            forall|p: Seq<u8>|
                valid_aes_key(key@) && #[trigger] aes_sealed(self.data@, p, key@) ==> r is Ok
                    && r->Ok_0@ == p,
    {
        if self.data.len() < 16 {
            return Err(CryptoError::Decryption);
        }
        let mut iv: Vec<u8> = Vec::new();
        let mut cipher: Vec<u8> = Vec::new();
        let mut i: usize = 0;
        while i < self.data.len()
            invariant
                16 <= self.data@.len(),
                i <= self.data@.len(),
                iv@ == self.data@.take(if i < 16 { i as int } else { 16 }),
                cipher@ == (if i < 16 { Seq::<u8>::empty() } else { self.data@.subrange(16, i as int) }),
            decreases self.data@.len() - i,
        {
            if i < 16 {
                iv.push(self.data[i]);
            } else {
                cipher.push(self.data[i]);
            }
            i = i + 1;
            assert(iv@ =~= self.data@.take(if i < 16 { i as int } else { 16 }));
            assert(cipher@ =~= (if i < 16 { Seq::<u8>::empty() } else { self.data@.subrange(16, i as int) }));
        }
        assert(cipher@ =~= self.data@.skip(16));
        match aes_decrypt(cipher.as_slice(), key.as_slice(), iv.as_slice()) {
            Some(p) => Ok(p),
            None => Err(CryptoError::Decryption),
        }
    }

    /// Replaces the contents with `plain` encrypted under `key`; on failure
    /// the envelope is left as it was.
    pub fn set(&mut self, key: &Vec<u8>, plain: &Vec<u8>) -> (r: Result<(), CryptoError>)
        ensures
            r is Ok <==> valid_aes_key(key@),
            r is Ok ==> aes_sealed(final(self).data@, plain@, key@),
            r is Err ==> final(self).data@ == old(self).data@,
    {
        match AesData::new(plain, key) {
            Ok(d) => {
                *self = d;
                Ok(())
            },
            Err(e) => Err(e),
        }
    }

    /// Seals login or account-creation credentials.
    pub fn seal_credentials(creds: &Credentials, key: &Vec<u8>) -> (r: Result<AesData, CryptoError>)
        ensures
            r is Ok <==> valid_aes_key(key@),
            r is Ok ==> aes_sealed(
                r->Ok_0.data@,
                credentials_encoding(creds.username@, creds.pw_digest@),
                key@,
            ),
            r is Ok ==> credentials_opened(r->Ok_0.data@, key@) == Some(
                (creds.username@, creds.pw_digest@),
            ),
    {
        match encode_credentials(&creds.username, &creds.pw_digest) {
            Some(b) => AesData::new(&b, key),
            None => Err(CryptoError::Encryption),
        }
    }

    /// Opens sealed credentials; what `seal_credentials` sealed under the
    /// same key comes back unchanged.
    pub fn open_credentials(&self, key: &Vec<u8>) -> (r: Result<Credentials, CryptoError>)
        ensures
            r is Ok <==> credentials_opened(self.data@, key@) is Some,
            r is Err ==> r->Err_0 == opening_error(self.data@, key@),
            r is Ok ==> credentials_opened(self.data@, key@) == Some(
                (r->Ok_0.username@, r->Ok_0.pw_digest@),
            ),
            forall|u: Seq<char>, d: Seq<char>|
                valid_aes_key(key@) && aes_sealed(
                    self.data@,
                    #[trigger] credentials_encoding(u, d),
                    key@,
                ) ==> r is Ok && r->Ok_0.username@ == u && r->Ok_0.pw_digest@ == d,
    {
        match self.get(key) {
            Ok(p) => match decode_credentials(p.as_slice()) {
                Some((u, d)) => Ok(Credentials { username: u, pw_digest: d }),
                None => Err(CryptoError::Malformed),
            },
            Err(e) => Err(e),
        }
    }

    /// Seals a message as its sender writes it.
    pub fn seal_outbound(msg: &OutboundMessage, key: &Vec<u8>) -> (r: Result<AesData, CryptoError>)
        ensures
            r is Ok <==> valid_aes_key(key@),
            r is Ok ==> aes_sealed(
                r->Ok_0.data@,
                outbound_encoding(strings_view(msg.recipients@), msg.contents@),
                key@,
            ),
            r is Ok ==> outbound_opened(r->Ok_0.data@, key@) == Some(
                (strings_view(msg.recipients@), msg.contents@),
            ),
    {
        match encode_outbound(&msg.recipients, &msg.contents) {
            Some(b) => AesData::new(&b, key),
            None => Err(CryptoError::Encryption),
        }
    }

    /// Opens a sealed outbound message; what `seal_outbound` sealed under
    /// the same key comes back unchanged.
    pub fn open_outbound(&self, key: &Vec<u8>) -> (r: Result<OutboundMessage, CryptoError>)
        ensures
            r is Ok <==> outbound_opened(self.data@, key@) is Some,
            r is Err ==> r->Err_0 == opening_error(self.data@, key@),
            r is Ok ==> outbound_opened(self.data@, key@) == Some(
                (strings_view(r->Ok_0.recipients@), r->Ok_0.contents@),
            ),
            forall|rs: Seq<Seq<char>>, c: Seq<char>|
                valid_aes_key(key@) && aes_sealed(
                    self.data@,
                    #[trigger] outbound_encoding(rs, c),
                    key@,
                ) ==> r is Ok && strings_view(r->Ok_0.recipients@) == rs && r->Ok_0.contents@ == c,
    {
        match self.get(key) {
            Ok(p) => match decode_outbound(p.as_slice()) {
                Some((rs, c)) => Ok(OutboundMessage { recipients: rs, contents: c }),
                None => Err(CryptoError::Malformed),
            },
            Err(e) => Err(e),
        }
    }

    /// Seals a message as it is delivered.
    pub fn seal_inbound(msg: &InboundMessage, key: &Vec<u8>) -> (r: Result<AesData, CryptoError>)
        ensures
            r is Ok <==> valid_aes_key(key@),
            r is Ok ==> aes_sealed(
                r->Ok_0.data@,
                inbound_encoding(msg@.sender, msg@.recipients, msg@.contents),
                key@,
            ),
            r is Ok ==> inbound_opened(r->Ok_0.data@, key@) == Some(
                (msg@.sender, msg@.recipients, msg@.contents),
            ),
    {
        match encode_inbound(&msg.sender, &msg.recipients, &msg.contents) {
            Some(b) => AesData::new(&b, key),
            None => Err(CryptoError::Encryption),
        }
    }

    /// Opens a sealed inbound message; what `seal_inbound` sealed under
    /// the same key comes back unchanged.
    pub fn open_inbound(&self, key: &Vec<u8>) -> (r: Result<InboundMessage, CryptoError>)
        ensures
            r is Ok <==> inbound_opened(self.data@, key@) is Some,
            r is Err ==> r->Err_0 == opening_error(self.data@, key@),
            r is Ok ==> inbound_opened(self.data@, key@) == Some(
                (r->Ok_0@.sender, r->Ok_0@.recipients, r->Ok_0@.contents),
            ),
            forall|s: Seq<char>, rs: Seq<Seq<char>>, c: Seq<char>|
                valid_aes_key(key@) && aes_sealed(
                    self.data@,
                    #[trigger] inbound_encoding(s, rs, c),
                    key@,
                ) ==> r is Ok && r->Ok_0@.sender == s && r->Ok_0@.recipients == rs
                    && r->Ok_0@.contents == c,
    {
        match self.get(key) {
            Ok(p) => match decode_inbound(p.as_slice()) {
                Some((s, rs, c)) => Ok(InboundMessage { sender: s, recipients: rs, contents: c }),
                None => Err(CryptoError::Malformed),
            },
            Err(e) => Err(e),
        }
    }
}

} // verus!
