//! Key-management (RSAES) and content-encryption (AES-GCM) algorithms for
//! JSON Web Encryption, with the DER key structures they build from a JWK.
pub mod der;
pub mod oid;
pub mod error;
pub mod header;
pub mod jwk;
pub mod rsaes;
pub mod aes_gcm;
mod backend;
