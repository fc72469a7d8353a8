//! The error taxonomy shared by both algorithm families.
use vstd::prelude::*;

verus! {

/// Why a key could not be used.
#[derive(Clone, Copy, Debug, PartialEq, Eq, Structural)]
pub enum KeyFault {
    /// `kty` is not `RSA`.
    KeyType,
    /// `use` is present and is not `enc`.
    KeyUse,
    /// `key_ops` is present and lacks one of the two operations required.
    KeyOperations,
    /// `alg` is present and names another algorithm.
    Algorithm,
    /// A required numeric parameter is absent.
    MissingParameter,
    /// A numeric parameter is not a string.
    ParameterNotString,
    /// A numeric parameter is not base64url without padding.
    ParameterEncoding,
    /// A numeric parameter is longer than any RSA key has.
    ParameterTooLong,
    /// The key library refused the key structure.
    KeyRejected,
    /// The modulus is shorter than 2048 bits.
    KeyTooShort,
    /// The random source failed.
    RandomSource,
    /// The key wrap failed.
    KeyWrap,
    /// A content-encryption key has the wrong length.
    KeyLength,
    /// The cipher failed.
    Cipher,
}

/// Why a message could not be processed.
#[derive(Clone, Copy, Debug, PartialEq, Eq, Structural)]
pub enum MessageFault {
    /// No wrapped key came with the message.
    MissingEncryptedKey,
    /// The wrapped key could not be unwrapped.
    KeyUnwrap,
    /// The unwrapped key does not have the expected length.
    UnwrappedKeyLength,
    /// A content-encryption key has the wrong length.
    KeyLength,
    /// No authentication tag came with the message.
    MissingTag,
    /// Decryption or authentication failed.
    CannotProcess,
}

#[derive(Clone, Copy, Debug, PartialEq, Eq, Structural)]
pub enum JoseError {
    /// The key, or a parameter of it, is unusable.
    InvalidKeyFormat(KeyFault),
    /// The message, or a part of it, is unusable.
    InvalidJweFormat(MessageFault),
}

} // verus!
