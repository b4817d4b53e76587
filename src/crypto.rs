//! The outside primitives the protocol is built on: AES-CBC, RSA with
//! PKCS#1 v1.5 padding, bincode's encoding, SHA-256 and the system's
//! random source. Each is reached through one small trusted item.
use rsa::{Pkcs1v15Encrypt, RsaPrivateKey, RsaPublicKey};
use vstd::prelude::*;

verus! {

#[verifier::external_type_specification]
#[verifier::external_body]
pub struct ExRsaPublicKey(RsaPublicKey);

#[verifier::external_type_specification]
#[verifier::external_body]
pub struct ExRsaPrivateKey(RsaPrivateKey);

#[verifier::external_type_specification]
#[verifier::external_body]
pub struct ExRsaError(rsa::Error);

/// The number whose little-endian base-256 digits are `b`.
pub open spec fn le_value(b: Seq<u8>) -> nat
    decreases b.len(),
{
    if b.len() == 0 {
        0
    } else {
        b[0] as nat + 256 * le_value(b.drop_first())
    }
}

/// Key lengths that AES accepts: 128, 192 or 256 bits.
pub open spec fn valid_aes_key(k: Seq<u8>) -> bool {
    k.len() == 16 || k.len() == 24 || k.len() == 32
}

/// What AES-CBC with PKCS#7 padding makes of a plaintext under a key and
/// an initialisation vector.
pub uninterp spec fn aes_cbc_encryption(plain: Seq<u8>, key: Seq<u8>, iv: Seq<u8>) -> Seq<u8>;

/// What AES-CBC decryption with PKCS#7 unpadding makes of a ciphertext
/// under a key and an initialisation vector, or `None` where it fails.
pub uninterp spec fn aes_cbc_decryption(cipher: Seq<u8>, key: Seq<u8>, iv: Seq<u8>) -> Option<
    Seq<u8>,
>;

/// What RsaPrivateKey::decrypt with PKCS#1 v1.5 padding gives for a
/// ciphertext, or `None` where it fails; it draws no random input.
pub uninterp spec fn rsa_decryption(key: RsaPrivateKey, cipher: Seq<u8>) -> Option<Seq<u8>>;

/// The public half of a key pair, as RsaPrivateKey::to_public_key gives it.
pub uninterp spec fn public_of(key: RsaPrivateKey) -> RsaPublicKey;

/// Whether RsaPrivateKey::validate accepts the key: a well-formed public
/// half, primes whose product is the modulus, and a private exponent that
/// inverts the public one modulo each prime less one.
pub uninterp spec fn rsa_key_consistent(key: RsaPrivateKey) -> bool;

/// The lowercase hexadecimal SHA-256 digest of a string's UTF-8 bytes.
pub uninterp spec fn sha256_hex(s: Seq<char>) -> Seq<char>;

/// Whether a character is alphabetic or numeric in Unicode's sense.
pub uninterp spec fn is_alphanumeric_char(c: char) -> bool;

/// bincode's encoding of a username and a password digest.
pub uninterp spec fn credentials_encoding(username: Seq<char>, digest: Seq<char>) -> Seq<u8>;

/// bincode's decoding of a username and a password digest.
pub uninterp spec fn credentials_decoding(b: Seq<u8>) -> Option<(Seq<char>, Seq<char>)>;

/// bincode's encoding of a recipient list and message contents.
pub uninterp spec fn outbound_encoding(recipients: Seq<Seq<char>>, contents: Seq<char>) -> Seq<u8>;

/// bincode's decoding of a recipient list and message contents.
pub uninterp spec fn outbound_decoding(b: Seq<u8>) -> Option<(Seq<Seq<char>>, Seq<char>)>;

/// bincode's encoding of a sender, a recipient list and contents.
pub uninterp spec fn inbound_encoding(
    sender: Seq<char>,
    recipients: Seq<Seq<char>>,
    contents: Seq<char>,
) -> Seq<u8>;

/// bincode's decoding of a sender, a recipient list and contents.
pub uninterp spec fn inbound_decoding(b: Seq<u8>) -> Option<
    (Seq<char>, Seq<Seq<char>>, Seq<char>),
>;

/// Relies on soft_aes::aes::aes_enc_cbc: with PKCS#7 padding it fails
/// only on a key that is not 16, 24 or 32 bytes long, and pads to whole
/// blocks.
#[verifier::external_body]
pub(crate) fn aes_encrypt(plain: &[u8], key: &[u8], iv: &[u8]) -> (r: Option<Vec<u8>>)
    requires
        iv@.len() == 16,
    ensures
        r is Some <==> valid_aes_key(key@),
        r is Some ==> r.unwrap()@ == aes_cbc_encryption(plain@, key@, iv@),
        r is Some ==> r.unwrap()@.len() == (plain@.len() / 16 + 1) * 16,
        r is Some ==> aes_cbc_decryption(r.unwrap()@, key@, iv@) == Some(plain@),
{
    let iv: [u8; 16] = iv.try_into().ok()?;
    soft_aes::aes::aes_enc_cbc(plain, key, &iv, Some("PKCS7")).ok()
}

/// Relies on soft_aes::aes::aes_dec_cbc: it fails on a ciphertext that
/// is not whole blocks, and it undoes aes_enc_cbc under the same key and
/// initialisation vector.
#[verifier::external_body]
pub(crate) fn aes_decrypt(cipher: &[u8], key: &[u8], iv: &[u8]) -> (r: Option<Vec<u8>>)
    requires
        iv@.len() == 16,
    ensures
        r is Some ==> aes_cbc_decryption(cipher@, key@, iv@) == Some(r.unwrap()@),
        r is None ==> aes_cbc_decryption(cipher@, key@, iv@) is None,
        cipher@.len() % 16 != 0 ==> r is None,
        !valid_aes_key(key@) ==> r is None,
        forall|p: Seq<u8>|
            valid_aes_key(key@) && cipher@ == #[trigger] aes_cbc_encryption(p, key@, iv@) ==> r
                is Some && r.unwrap()@ == p,
{
    let iv: [u8; 16] = iv.try_into().ok()?;
    soft_aes::aes::aes_dec_cbc(cipher, key, &iv, Some("PKCS7")).ok()
}

/// Relies on sha256::digest: 64 lowercase hexadecimal digits, a function
/// of the input alone.
#[verifier::external_body]
pub(crate) fn sha256_digest(s: &str) -> (r: String)
    ensures
        r@ == sha256_hex(s@),
        r@.len() == 64,
{
    sha256::digest(s)
}

/// Relies on char::is_alphanumeric; ASCII letters and digits are
/// alphanumeric, ASCII punctuation and space are not.
#[verifier::external_body]
pub(crate) fn char_is_alphanumeric(c: char) -> (r: bool)
    ensures
        r == is_alphanumeric_char(c),
        ('a' <= c <= 'z' || 'A' <= c <= 'Z' || '0' <= c <= '9') ==> r,
        (' ' <= c <= '/' || ':' <= c <= '@' || '[' <= c <= '`' || '{' <= c <= '~') ==> !r,
{
    c.is_alphanumeric()
}

/// Relies on bincode::serialize for `u128`: sixteen little-endian bytes.
#[verifier::external_body]
pub(crate) fn encode_u128(t: u128) -> (r: Option<Vec<u8>>)
    ensures
        r is Some,
        r is Some ==> r.unwrap()@.len() == 16,
        r is Some ==> le_value(r.unwrap()@) == t,
{
    bincode::serialize(&t).ok()
}

/// Relies on bincode::deserialize for `u128`: the first sixteen bytes,
/// little-endian; later bytes are ignored.
#[verifier::external_body]
pub(crate) fn decode_u128(b: &[u8]) -> (r: Option<u128>)
    ensures
        r is Some <==> b@.len() >= 16,
        r is Some ==> r.unwrap() == le_value(b@.take(16)),
{
    bincode::deserialize::<u128>(b).ok()
}

/// Relies on bincode::serialize for a byte vector: its length as eight
/// little-endian bytes, then the bytes.
#[verifier::external_body]
pub(crate) fn encode_bytes(v: &Vec<u8>) -> (r: Option<Vec<u8>>)
    ensures
        r is Some,
        r is Some ==> r.unwrap()@.len() == 8 + v@.len(),
        r is Some ==> le_value(r.unwrap()@.take(8)) == v@.len(),
        r is Some ==> r.unwrap()@.skip(8) == v@,
{
    bincode::serialize(v).ok()
}

/// Relies on bincode::deserialize for a byte vector: an eight-byte
/// little-endian length, then that many bytes; later bytes are ignored.
#[verifier::external_body]
pub(crate) fn decode_bytes(b: &[u8]) -> (r: Option<Vec<u8>>)
    ensures
        r is Some <==> (b@.len() >= 8 && 8 + le_value(b@.take(8)) <= b@.len()),
        r is Some ==> r.unwrap()@ == b@.subrange(8, 8 + le_value(b@.take(8)) as int),
{
    bincode::deserialize::<Vec<u8>>(b).ok()
}

/// Relies on bincode::serialize for a pair of strings, which cannot fail.
#[verifier::external_body]
pub(crate) fn encode_credentials(username: &String, digest: &String) -> (r: Option<Vec<u8>>)
    ensures
        r is Some,
        r is Some ==> r.unwrap()@ == credentials_encoding(username@, digest@),
        r is Some ==> credentials_decoding(r.unwrap()@) == Some((username@, digest@)),
{
    bincode::serialize(&(username, digest)).ok()
}

/// Relies on bincode::deserialize for a pair of strings; it reads back
/// what bincode::serialize wrote.
#[verifier::external_body]
pub(crate) fn decode_credentials(b: &[u8]) -> (r: Option<(String, String)>)
    ensures
        r is Some ==> credentials_decoding(b@) == Some((r.unwrap().0@, r.unwrap().1@)),
        r is None ==> credentials_decoding(b@) is None,
        forall|u: Seq<char>, d: Seq<char>|
            b@ == #[trigger] credentials_encoding(u, d) ==> r is Some && r.unwrap().0@ == u
                && r.unwrap().1@ == d,
{
    bincode::deserialize::<(String, String)>(b).ok()
}

/// Relies on bincode::serialize for a list of strings and a string, which
/// cannot fail.
#[verifier::external_body]
pub(crate) fn encode_outbound(recipients: &Vec<String>, contents: &String) -> (r: Option<Vec<u8>>)
    ensures
        r is Some,
        r is Some ==> r.unwrap()@ == outbound_encoding(
            recipients@.map_values(|s: String| s@),
            contents@,
        ),
        r is Some ==> outbound_decoding(r.unwrap()@) == Some(
            (recipients@.map_values(|s: String| s@), contents@),
        ),
{
    bincode::serialize(&(recipients, contents)).ok()
}

/// Relies on bincode::deserialize for a list of strings and a string; it
/// reads back what bincode::serialize wrote.
#[verifier::external_body]
pub(crate) fn decode_outbound(b: &[u8]) -> (r: Option<(Vec<String>, String)>)
    ensures
        r is Some ==> outbound_decoding(b@) == Some(
            (r.unwrap().0@.map_values(|s: String| s@), r.unwrap().1@),
        ),
        r is None ==> outbound_decoding(b@) is None,
        forall|rs: Seq<Seq<char>>, c: Seq<char>|
            b@ == #[trigger] outbound_encoding(rs, c) ==> r is Some && r.unwrap().0@.map_values(
                |s: String| s@,
            ) == rs && r.unwrap().1@ == c,
{
    bincode::deserialize::<(Vec<String>, String)>(b).ok()
}

/// Relies on bincode::serialize for a string, a list of strings and a
/// string, which cannot fail.
#[verifier::external_body]
pub(crate) fn encode_inbound(sender: &String, recipients: &Vec<String>, contents: &String) -> (r:
    Option<Vec<u8>>)
    ensures
        r is Some,
        r is Some ==> r.unwrap()@ == inbound_encoding(
            sender@,
            recipients@.map_values(|s: String| s@),
            contents@,
        ),
        r is Some ==> inbound_decoding(r.unwrap()@) == Some(
            (sender@, recipients@.map_values(|s: String| s@), contents@),
        ),
{
    bincode::serialize(&(sender, recipients, contents)).ok()
}

/// Relies on bincode::deserialize for a string, a list of strings and a
/// string; it reads back what bincode::serialize wrote.
#[verifier::external_body]
pub(crate) fn decode_inbound(b: &[u8]) -> (r: Option<(String, Vec<String>, String)>)
    ensures
        r is Some ==> inbound_decoding(b@) == Some(
            (r.unwrap().0@, r.unwrap().1@.map_values(|s: String| s@), r.unwrap().2@),
        ),
        r is None ==> inbound_decoding(b@) is None,
        forall|s: Seq<char>, rs: Seq<Seq<char>>, c: Seq<char>|
            b@ == #[trigger] inbound_encoding(s, rs, c) ==> r is Some && r.unwrap().0@ == s
                && r.unwrap().1@.map_values(|x: String| x@) == rs && r.unwrap().2@ == c,
{
    bincode::deserialize::<(String, Vec<String>, String)>(b).ok()
}

/// Relies on RsaPublicKey::encrypt with PKCS#1 v1.5 padding and the
/// operating system's random source: the ciphertext is random, and any
/// consistent private key for `key` decrypts it back to `msg`.
#[verifier::external_body]
pub(crate) fn rsa_encrypt(key: &RsaPublicKey, msg: &[u8]) -> (r: Result<Vec<u8>, rsa::Error>)
    ensures
        r is Ok ==> forall|k: RsaPrivateKey|
            public_of(k) == *key && rsa_key_consistent(k) ==> #[trigger] rsa_decryption(
                k,
                r->Ok_0@,
            ) == Some(msg@),
{
    key.encrypt(&mut rsa::rand_core::OsRng, Pkcs1v15Encrypt, msg)
}

/// Relies on RsaPrivateKey::decrypt with PKCS#1 v1.5 padding, which takes
/// no random input: the result depends on the key and ciphertext alone.
#[verifier::external_body]
pub(crate) fn rsa_decrypt(key: &RsaPrivateKey, cipher: &[u8]) -> (r: Result<Vec<u8>, rsa::Error>)
    ensures
        r is Ok <==> rsa_decryption(*key, cipher@) is Some,
        r is Ok ==> rsa_decryption(*key, cipher@) == Some(r->Ok_0@),
{
    key.decrypt(Pkcs1v15Encrypt, cipher)
}

/// Relies on RsaPrivateKey::new: a fresh 2048-bit key pair drawn from the
/// operating system's random source, built through from_components, which
/// validates it.
#[verifier::external_body]
pub(crate) fn generate_private_key() -> (r: Result<RsaPrivateKey, rsa::Error>)
    ensures
        r is Ok ==> rsa_key_consistent(r->Ok_0),
{
    RsaPrivateKey::new(&mut rsa::rand_core::OsRng, 2048)
}

/// Relies on RsaPrivateKey::to_public_key: the public half of a key pair.
#[verifier::external_body]
pub(crate) fn public_key_of(key: &RsaPrivateKey) -> (r: RsaPublicKey)
    ensures
        r == public_of(*key),
{
    key.to_public_key()
}

/// Relies on RsaPublicKey's Clone: a copy of the same public key.
#[verifier::external_body]
pub(crate) fn clone_public_key(key: &RsaPublicKey) -> (r: RsaPublicKey)
    ensures
        r == *key,
{
    key.clone()
}

/// Relies on rand::random for `u128`: a uniformly drawn value.
#[verifier::external_body]
pub(crate) fn random_u128() -> (r: u128) {
    rand::random::<u128>()
}

/// Relies on rand::random for sixteen bytes: session keys and
/// initialisation vectors.
#[verifier::external_body]
pub(crate) fn random_key_bytes() -> (r: Vec<u8>)
    ensures
        r@.len() == 16,
{
    rand::random::<[u8; 16]>().to_vec()
}

} // verus!
