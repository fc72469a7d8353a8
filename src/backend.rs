//! The calls into openssl and base64 that the algorithms make, each with
//! the contract the library relies on.
use vstd::prelude::*;

use openssl::encrypt::{Decrypter, Encrypter};
use openssl::error::ErrorStack;
use openssl::hash::MessageDigest;
use openssl::pkey::{PKey, Private, Public};
use openssl::rsa::Padding;
use openssl::symm::Cipher;

use crate::aes_gcm::AesGcmJweEncryption;
use crate::rsaes::OaepHash;

verus! {

#[verifier::external_type_specification]
#[verifier::external_body]
#[verifier::reject_recursive_types(T)]
pub struct ExPKey<T>(PKey<T>);

#[verifier::external_type_specification]
#[verifier::external_body]
pub struct ExPublic(Public);

#[verifier::external_type_specification]
#[verifier::external_body]
pub struct ExPrivate(Private);

#[verifier::external_type_specification]
#[verifier::external_body]
pub struct ExErrorStack(ErrorStack);

/// Relies on openssl's Clone for PKey: another handle on the same key.
pub assume_specification<T>[ <PKey<T> as Clone>::clone ](key: &PKey<T>) -> PKey<T>;

/// The bytes that the base64url text `s` (no padding) encodes, if it is such text.
pub uninterp spec fn base64url_decoded(s: Seq<char>) -> Option<Seq<u8>>;

/// Relies on base64::decode_config with URL_SAFE_NO_PAD: the decoded bytes,
/// or an error, as a function of the text alone.
#[verifier::external_body]
pub(crate) fn decode_base64url(s: &str) -> (r: Option<Vec<u8>>)
    ensures
        r matches Some(v) ==> base64url_decoded(s@) == Some(v@),
        r is None ==> base64url_decoded(s@) is None,
{
    base64::decode_config(s, base64::URL_SAFE_NO_PAD).ok()
}

/// The size in bits (for RSA, of the modulus) of the key that the DER
/// SubjectPublicKeyInfo `der` holds, if openssl reads a key from it.
pub uninterp spec fn public_key_bits(der: Seq<u8>) -> Option<u32>;

/// The size in bits (for RSA, of the modulus) of the key that the DER
/// private key `der` holds, if openssl reads a key from it.
pub uninterp spec fn private_key_bits(der: Seq<u8>) -> Option<u32>;

/// Relies on openssl's PKey::public_key_from_der and PKeyRef::bits: parses a
/// DER SubjectPublicKeyInfo and reports the key's size in bits, both as a
/// function of the bytes alone.
#[verifier::external_body]
pub(crate) fn parse_public_key(der: &[u8]) -> (r: Result<(PKey<Public>, u32), ErrorStack>)
    ensures
        r matches Ok((_, b)) ==> public_key_bits(der@) == Some(b),
        r is Err ==> public_key_bits(der@) is None,
{
    let key = PKey::public_key_from_der(der)?;
    let bits = key.bits();
    Ok((key, bits))
}

/// Relies on openssl's PKey::private_key_from_der and PKeyRef::bits: parses
/// a DER private key (PKCS #8 included) and reports the key's size in bits,
/// both as a function of the bytes alone.
#[verifier::external_body]
pub(crate) fn parse_private_key(der: &[u8]) -> (r: Result<(PKey<Private>, u32), ErrorStack>)
    ensures
        r matches Ok((_, b)) ==> private_key_bits(der@) == Some(b),
        r is Err ==> private_key_bits(der@) is None,
{
    let key = PKey::private_key_from_der(der)?;
    let bits = key.bits();
    Ok((key, bits))
}

/// Relies on openssl's rand::rand_bytes: fills a buffer of `len` bytes from
/// the secure random source (it panics above `i32::MAX` bytes).
#[verifier::external_body]
pub(crate) fn random_bytes(len: usize) -> (r: Result<Vec<u8>, ErrorStack>)
    requires
        len <= i32::MAX,
    ensures
        r matches Ok(v) ==> v@.len() == len,
{
    let mut buf = vec![0u8; len];
    openssl::rand::rand_bytes(&mut buf)?;
    Ok(buf)
}

/// Relies on openssl's encrypt::Encrypter: RSAES-PKCS1-v1_5 encryption.
#[verifier::external_body]
pub(crate) fn rsa_encrypt_pkcs1(key: &PKey<Public>, data: &[u8]) -> (r: Result<
    Vec<u8>,
    ErrorStack,
>) {
    let mut enc = Encrypter::new(key)?;
    enc.set_rsa_padding(Padding::PKCS1)?;
    let mut out = vec![0u8; enc.encrypt_len(data)?];
    let len = enc.encrypt(data, &mut out)?;
    out.truncate(len);
    Ok(out)
}

/// Relies on openssl's encrypt::Encrypter: RSAES-OAEP encryption with `hash`
/// as the digest and as the MGF1 digest.
#[verifier::external_body]
pub(crate) fn rsa_encrypt_oaep(key: &PKey<Public>, hash: OaepHash, data: &[u8]) -> (r: Result<
    Vec<u8>,
    ErrorStack,
>) {
    let md = match hash {
        OaepHash::Sha1 => MessageDigest::sha1(),
        OaepHash::Sha256 => MessageDigest::sha256(),
        OaepHash::Sha384 => MessageDigest::sha384(),
        OaepHash::Sha512 => MessageDigest::sha512(),
    };
    let mut enc = Encrypter::new(key)?;
    enc.set_rsa_padding(Padding::PKCS1_OAEP)?;
    enc.set_rsa_oaep_md(md)?;
    enc.set_rsa_mgf1_md(md)?;
    let mut out = vec![0u8; enc.encrypt_len(data)?];
    let len = enc.encrypt(data, &mut out)?;
    out.truncate(len);
    Ok(out)
}

/// Relies on openssl's encrypt::Decrypter: RSAES-PKCS1-v1_5 decryption.
#[verifier::external_body]
pub(crate) fn rsa_decrypt_pkcs1(key: &PKey<Private>, data: &[u8]) -> (r: Result<
    Vec<u8>,
    ErrorStack,
>) {
    let mut dec = Decrypter::new(key)?;
    dec.set_rsa_padding(Padding::PKCS1)?;
    let mut out = vec![0u8; dec.decrypt_len(data)?];
    let len = dec.decrypt(data, &mut out)?;
    out.truncate(len);
    Ok(out)
}

/// Relies on openssl's encrypt::Decrypter: RSAES-OAEP decryption with `hash`
/// as the digest and as the MGF1 digest.
#[verifier::external_body]
pub(crate) fn rsa_decrypt_oaep(key: &PKey<Private>, hash: OaepHash, data: &[u8]) -> (r: Result<
    Vec<u8>,
    ErrorStack,
>) {
    let md = match hash {
        OaepHash::Sha1 => MessageDigest::sha1(),
        OaepHash::Sha256 => MessageDigest::sha256(),
        OaepHash::Sha384 => MessageDigest::sha384(),
        OaepHash::Sha512 => MessageDigest::sha512(),
    };
    let mut dec = Decrypter::new(key)?;
    dec.set_rsa_padding(Padding::PKCS1_OAEP)?;
    dec.set_rsa_oaep_md(md)?;
    dec.set_rsa_mgf1_md(md)?;
    let mut out = vec![0u8; dec.decrypt_len(data)?];
    let len = dec.decrypt(data, &mut out)?;
    out.truncate(len);
    Ok(out)
}

/// The ciphertext and 16-byte tag of AES-GCM under `key` (whose length picks
/// AES-128, -192 or -256), `iv` and `aad` over `data`, if the cipher accepts
/// the inputs.
pub uninterp spec fn aes_gcm_sealed(key: Seq<u8>, iv: Seq<u8>, aad: Seq<u8>, data: Seq<u8>) -> Option<
    (Seq<u8>, Seq<u8>),
>;

/// The plaintext of AES-GCM under `key`, `iv` and `aad` for `data`, if `tag`
/// authenticates it and the cipher accepts the inputs.
pub uninterp spec fn aes_gcm_opened(
    key: Seq<u8>,
    iv: Seq<u8>,
    aad: Seq<u8>,
    data: Seq<u8>,
    tag: Seq<u8>,
) -> Option<Seq<u8>>;

/// Relies on openssl's symm::encrypt_aead with the AES-GCM cipher of `enc`:
/// the ciphertext and a 16-byte tag, as a function of the arguments alone.
/// It panics on a key shorter than the
/// cipher's, hence the key length required.
#[verifier::external_body]
pub(crate) fn aes_gcm_seal(
    enc: AesGcmJweEncryption,
    key: &[u8],
    iv: &[u8],
    aad: &[u8],
    data: &[u8],
) -> (r: Result<(Vec<u8>, Vec<u8>), ErrorStack>)
    requires
        key@.len() == enc.key_len_spec(),
    ensures
        r matches Ok((c, t)) ==> aes_gcm_sealed(key@, iv@, aad@, data@) == Some((c@, t@))
            && t@.len() == 16,
        r is Err ==> aes_gcm_sealed(key@, iv@, aad@, data@) is None,
{
    let cipher = match enc {
        AesGcmJweEncryption::A128Gcm => Cipher::aes_128_gcm(),
        AesGcmJweEncryption::A192Gcm => Cipher::aes_192_gcm(),
        AesGcmJweEncryption::A256Gcm => Cipher::aes_256_gcm(),
    };
    let mut tag = [0u8; 16];
    let out = openssl::symm::encrypt_aead(cipher, key, Some(iv), aad, data, &mut tag)?;
    Ok((out, tag.to_vec()))
}

/// Relies on openssl's symm::decrypt_aead with the AES-GCM cipher of `enc`:
/// the plaintext, or an error where authentication fails, as a function of
/// the arguments alone.
#[verifier::external_body]
pub(crate) fn aes_gcm_open(
    enc: AesGcmJweEncryption,
    key: &[u8],
    iv: &[u8],
    aad: &[u8],
    data: &[u8],
    tag: &[u8],
) -> (r: Result<Vec<u8>, ErrorStack>)
    requires
        key@.len() == enc.key_len_spec(),
    ensures
        r matches Ok(m) ==> aes_gcm_opened(key@, iv@, aad@, data@, tag@) == Some(m@),
        r is Err ==> aes_gcm_opened(key@, iv@, aad@, data@, tag@) is None,
{
    let cipher = match enc {
        AesGcmJweEncryption::A128Gcm => Cipher::aes_128_gcm(),
        AesGcmJweEncryption::A192Gcm => Cipher::aes_192_gcm(),
        AesGcmJweEncryption::A256Gcm => Cipher::aes_256_gcm(),
    };
    openssl::symm::decrypt_aead(cipher, key, Some(iv), aad, data, tag)
}

} // verus!
