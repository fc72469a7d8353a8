//! AES-GCM content encryption: A128GCM, A192GCM and A256GCM.
use vstd::prelude::*;

use crate::backend::{aes_gcm_open, aes_gcm_opened, aes_gcm_seal, aes_gcm_sealed};
use crate::error::{JoseError, KeyFault, MessageFault};

verus! {

/// The AES-GCM content-encryption algorithms.
#[derive(Clone, Copy, Debug, PartialEq, Eq, Structural)]
pub enum AesGcmJweEncryption {
    /// AES GCM using 128-bit key
    A128Gcm,
    /// AES GCM using 192-bit key
    A192Gcm,
    /// AES GCM using 256-bit key
    A256Gcm,
}

/// The length of the initialisation vector of every variant, in bytes.
pub const GCM_IV_LEN: usize = 12;

/// The length of the authentication tag, in bytes.
pub const GCM_TAG_LEN: usize = 16;

impl AesGcmJweEncryption {
    pub open spec fn name_spec(self) -> Seq<char> {
        match self {
            AesGcmJweEncryption::A128Gcm => "A128GCM"@,
            AesGcmJweEncryption::A192Gcm => "A192GCM"@,
            AesGcmJweEncryption::A256Gcm => "A256GCM"@,
        }
    }

    pub open spec fn key_len_spec(self) -> nat {
        match self {
            AesGcmJweEncryption::A128Gcm => 16,
            AesGcmJweEncryption::A192Gcm => 24,
            AesGcmJweEncryption::A256Gcm => 32,
        }
    }

    /// The algorithm name, as `enc` writes it.
    pub fn name(&self) -> (r: &'static str)
        ensures
            r@ == self.name_spec(),
    {
        match self {
            AesGcmJweEncryption::A128Gcm => "A128GCM",
            AesGcmJweEncryption::A192Gcm => "A192GCM",
            AesGcmJweEncryption::A256Gcm => "A256GCM",
        }
    }

    /// The key length, in bytes.
    pub fn key_len(&self) -> (r: usize)
        ensures
            r == self.key_len_spec(),
    {
        match self {
            AesGcmJweEncryption::A128Gcm => 16,
            AesGcmJweEncryption::A192Gcm => 24,
            AesGcmJweEncryption::A256Gcm => 32,
        }
    }

    /// The length of the initialisation vector, in bytes.
    pub fn iv_len(&self) -> (r: usize)
        ensures
            r == GCM_IV_LEN,
    {
        GCM_IV_LEN
    }

    /// Encrypts `message` under `key` and `iv`, authenticating `aad` too.
    /// Returns the ciphertext and the authentication tag; a missing `iv` is
    /// an error of the cipher.
    pub fn encrypt(&self, key: &[u8], iv: Option<&[u8]>, message: &[u8], aad: &[u8]) -> (r:
        Result<(Vec<u8>, Option<Vec<u8>>), JoseError>)
        ensures
            key@.len() != self.key_len_spec() ==> r == Err::<(Vec<u8>, Option<Vec<u8>>), _>(
                JoseError::InvalidKeyFormat(KeyFault::KeyLength),
            ),
            key@.len() == self.key_len_spec() && iv is None ==> r == Err::<
                (Vec<u8>, Option<Vec<u8>>),
                _,
            >(JoseError::InvalidKeyFormat(KeyFault::Cipher)),
            key@.len() == self.key_len_spec() && iv is Some ==> (match aes_gcm_sealed(
                key@,
                iv->0@,
                aad@,
                message@,
            ) {
                Some((c, t)) => r matches Ok((x, Some(y))) && x@ == c && y@ == t && y@.len()
                    == GCM_TAG_LEN,
                None => r == Err::<(Vec<u8>, Option<Vec<u8>>), _>(
                    JoseError::InvalidKeyFormat(KeyFault::Cipher),
                ),
            }),
    {
        if key.len() != self.key_len() {
            return Err(JoseError::InvalidKeyFormat(KeyFault::KeyLength));
        }
        let iv = match iv {
            Some(v) => v,
            None => {
                return Err(JoseError::InvalidKeyFormat(KeyFault::Cipher));
            },
        };
        match aes_gcm_seal(*self, key, iv, aad, message) {
            Ok((out, tag)) => Ok((out, Some(tag))),
            Err(_) => Err(JoseError::InvalidKeyFormat(KeyFault::Cipher)),
        }
    }

    /// Decrypts `encrypted_message` under `key` and `iv`, checking `tag`
    /// over it and `aad`. Every failure of the cipher gives the same error.
    pub fn decrypt(
        &self,
        key: &[u8],
        iv: Option<&[u8]>,
        encrypted_message: &[u8],
        aad: &[u8],
        tag: Option<&[u8]>,
    ) -> (r: Result<Vec<u8>, JoseError>)
        ensures
            key@.len() != self.key_len_spec() ==> r == Err::<Vec<u8>, _>(
                JoseError::InvalidJweFormat(MessageFault::KeyLength),
            ),
            key@.len() == self.key_len_spec() && tag is None ==> r == Err::<Vec<u8>, _>(
                JoseError::InvalidJweFormat(MessageFault::MissingTag),
            ),
            key@.len() == self.key_len_spec() && tag is Some && iv is None ==> r == Err::<
                Vec<u8>,
                _,
            >(JoseError::InvalidJweFormat(MessageFault::CannotProcess)),
            key@.len() == self.key_len_spec() && tag is Some && iv is Some ==> (match aes_gcm_opened(
                key@,
                iv->0@,
                aad@,
                encrypted_message@,
                tag->0@,
            ) {
                Some(m) => r matches Ok(v) && v@ == m,
                None => r == Err::<Vec<u8>, _>(
                    JoseError::InvalidJweFormat(MessageFault::CannotProcess),
                ),
            }),
    {
        if key.len() != self.key_len() {
            return Err(JoseError::InvalidJweFormat(MessageFault::KeyLength));
        }
        let tag = match tag {
            Some(t) => t,
            None => {
                return Err(JoseError::InvalidJweFormat(MessageFault::MissingTag));
            },
        };
        let iv = match iv {
            Some(v) => v,
            None => {
                return Err(JoseError::InvalidJweFormat(MessageFault::CannotProcess));
            },
        };
        match aes_gcm_open(*self, key, iv, aad, encrypted_message, tag) {
            Ok(m) => Ok(m),
            Err(_) => Err(JoseError::InvalidJweFormat(MessageFault::CannotProcess)),
        }
    }
}

} // verus!
