//! RSAES key management: RSA1_5 and the four RSA-OAEP variants.
use vstd::prelude::*;

use crate::der::{
    der_bit_string, der_context, der_null, der_octet_string, der_sequence,
    der_unsigned_integer, encode_bit_string, encode_context, encode_null, encode_octet_string,
    encode_sequence, encode_unsigned_integer,
};
use crate::backend::{
    base64url_decoded, decode_base64url, parse_private_key, parse_public_key, private_key_bits,
    public_key_bits, random_bytes, rsa_decrypt_oaep, rsa_decrypt_pkcs1,
    rsa_encrypt_oaep, rsa_encrypt_pkcs1,
};
use crate::error::{JoseError, KeyFault, MessageFault};
use crate::header::JweHeader;
use crate::jwk::{opt_view, Jwk, JwkValue};
use crate::oid::Oid;
use openssl::pkey::{PKey, Private, Public};

verus! {

/// The hash function of an OAEP variant, used for the digest and for MGF1.
#[derive(Clone, Copy, Debug, PartialEq, Eq, Structural)]
pub enum OaepHash {
    Sha1,
    Sha256,
    Sha384,
    Sha512,
}

impl OaepHash {
    pub open spec fn oid_spec(self) -> Oid {
        match self {
            OaepHash::Sha1 => Oid::Sha1,
            OaepHash::Sha256 => Oid::Sha256,
            OaepHash::Sha384 => Oid::Sha384,
            OaepHash::Sha512 => Oid::Sha512,
        }
    }

    /// The identifier of the hash function.
    pub fn oid(&self) -> (r: Oid)
        ensures
            r == self.oid_spec(),
    {
        match self {
            OaepHash::Sha1 => Oid::Sha1,
            OaepHash::Sha256 => Oid::Sha256,
            OaepHash::Sha384 => Oid::Sha384,
            OaepHash::Sha512 => Oid::Sha512,
        }
    }
}

/// The RSAES key-management algorithms.
#[derive(Clone, Copy, Debug, PartialEq, Eq, Structural)]
pub enum RsaesJweAlgorithm {
    /// RSAES-PKCS1-v1_5 (no longer recommended)
    Rsa1_5,
    /// RSAES OAEP using default parameters
    RsaOaep,
    /// RSAES OAEP using SHA-256 and MGF1 with SHA-256
    RsaOaep256,
    /// RSAES OAEP using SHA-384 and MGF1 with SHA-384
    RsaOaep384,
    /// RSAES OAEP using SHA-512 and MGF1 with SHA-512
    RsaOaep512,
}

impl RsaesJweAlgorithm {
    pub open spec fn name_spec(self) -> Seq<char> {
        match self {
            RsaesJweAlgorithm::Rsa1_5 => "RSA1_5"@,
            RsaesJweAlgorithm::RsaOaep => "RSA-OAEP"@,
            RsaesJweAlgorithm::RsaOaep256 => "RSA-OAEP-256"@,
            RsaesJweAlgorithm::RsaOaep384 => "RSA-OAEP-384"@,
            RsaesJweAlgorithm::RsaOaep512 => "RSA-OAEP-512"@,
        }
    }

    /// The OAEP hash of the variant; none for PKCS #1 v1.5 padding.
    pub open spec fn oaep_hash_spec(self) -> Option<OaepHash> {
        match self {
            RsaesJweAlgorithm::Rsa1_5 => None,
            RsaesJweAlgorithm::RsaOaep => Some(OaepHash::Sha1),
            RsaesJweAlgorithm::RsaOaep256 => Some(OaepHash::Sha256),
            RsaesJweAlgorithm::RsaOaep384 => Some(OaepHash::Sha384),
            RsaesJweAlgorithm::RsaOaep512 => Some(OaepHash::Sha512),
        }
    }

    /// The AlgorithmIdentifier of the key: `rsaEncryption` with NULL
    /// parameters, or `id-RSAES-OAEP` with the OAEP parameters
    /// `{ [0] hashFunc, [1] MGF1(hashFunc), [2] pSpecified }`.
    pub open spec fn algorithm_identifier_spec(self) -> Seq<u8> {
        match self.oaep_hash_spec() {
            None => der_sequence(Oid::RsaEncryption.der_spec() + der_null()),
            Some(h) => der_sequence(
                Oid::RsaesOaep.der_spec() + der_sequence(
                    der_context(0, der_sequence(h.oid_spec().der_spec())) + der_context(
                        1,
                        der_sequence(
                            Oid::Mgf1.der_spec() + der_sequence(h.oid_spec().der_spec()),
                        ),
                    ) + der_context(2, Oid::PSpecified.der_spec()),
                ),
            ),
        }
    }

    /// SubjectPublicKeyInfo (public) or PrivateKeyInfo (private) around `key`.
    pub open spec fn pkcs8_spec(self, key: Seq<u8>, is_public: bool) -> Seq<u8> {
        if is_public {
            der_sequence(self.algorithm_identifier_spec() + der_bit_string(key, 0))
        } else {
            der_sequence(
                der_unsigned_integer(seq![0u8]) + self.algorithm_identifier_spec()
                    + der_octet_string(key),
            )
        }
    }

    /// What stops `jwk` from serving this algorithm, with `usage` the `use`
    /// value and `op1`, `op2` the key operations the role needs.
    pub open spec fn usage_fault(
        self,
        jwk: Jwk,
        usage: Seq<char>,
        op1: Seq<char>,
        op2: Seq<char>,
    ) -> Option<KeyFault> {
        if jwk.key_type@ != "RSA"@ {
            Some(KeyFault::KeyType)
        } else if jwk.key_use is Some && opt_view(jwk.key_use) != Some(usage) {
            Some(KeyFault::KeyUse)
        } else if !jwk.permits(op1) || !jwk.permits(op2) {
            Some(KeyFault::KeyOperations)
        } else if jwk.algorithm is Some && opt_view(jwk.algorithm) != Some(self.name_spec()) {
            Some(KeyFault::Algorithm)
        } else {
            None
        }
    }

    /// The algorithm name, as `alg` writes it.
    pub fn name(&self) -> (r: &'static str)
        ensures
            r@ == self.name_spec(),
    {
        match self {
            RsaesJweAlgorithm::Rsa1_5 => "RSA1_5",
            RsaesJweAlgorithm::RsaOaep => "RSA-OAEP",
            RsaesJweAlgorithm::RsaOaep256 => "RSA-OAEP-256",
            RsaesJweAlgorithm::RsaOaep384 => "RSA-OAEP-384",
            RsaesJweAlgorithm::RsaOaep512 => "RSA-OAEP-512",
        }
    }

    /// The OAEP hash of the variant; none for PKCS #1 v1.5 padding.
    pub fn oaep_hash(&self) -> (r: Option<OaepHash>)
        ensures
            r == self.oaep_hash_spec(),
    {
        match self {
            RsaesJweAlgorithm::Rsa1_5 => None,
            RsaesJweAlgorithm::RsaOaep => Some(OaepHash::Sha1),
            RsaesJweAlgorithm::RsaOaep256 => Some(OaepHash::Sha256),
            RsaesJweAlgorithm::RsaOaep384 => Some(OaepHash::Sha384),
            RsaesJweAlgorithm::RsaOaep512 => Some(OaepHash::Sha512),
        }
    }

    /// The identifier of the OAEP hash of the variant.
    pub fn hash_oid(&self) -> (r: Oid)
        requires
            self.oaep_hash_spec() is Some,
        ensures
            r == self.oaep_hash_spec()->0.oid_spec(),
    {
        match self.oaep_hash() {
            Some(h) => h.oid(),
            None => Oid::Sha1,
        }
    }

    /// The AlgorithmIdentifier of a key for this variant.
    pub fn algorithm_identifier(&self) -> (r: Vec<u8>)
        ensures
            r@ == self.algorithm_identifier_spec(),
            r@.len() <= 500,
    {
        let mut content: Vec<u8> = Vec::new();
        match self.oaep_hash() {
            None => {
                let mut oid = Oid::RsaEncryption.to_der();
                let mut null = encode_null();
                content.append(&mut oid);
                content.append(&mut null);
            },
            Some(h) => {
                let hash = h.oid().to_der();
                let hash_seq = encode_sequence(&hash);
                let mut hash_func = encode_context(0, &hash_seq);
                let mut mgf_content = Oid::Mgf1.to_der();
                let mut hash_seq2 = encode_sequence(&hash);
                mgf_content.append(&mut hash_seq2);
                let mgf_seq = encode_sequence(&mgf_content);
                let mut mgf_func = encode_context(1, &mgf_seq);
                let p_oid = Oid::PSpecified.to_der();
                let mut p_func = encode_context(2, &p_oid);
                let mut params: Vec<u8> = Vec::new();
                params.append(&mut hash_func);
                params.append(&mut mgf_func);
                params.append(&mut p_func);
                let mut params_seq = encode_sequence(&params);
                let mut oid = Oid::RsaesOaep.to_der();
                content.append(&mut oid);
                content.append(&mut params_seq);
            },
        }
        encode_sequence(&content)
    }

    /// The PKCS #8 structure of `key`: SubjectPublicKeyInfo when `is_public`,
    /// else PrivateKeyInfo, naming this variant's algorithm.
    pub fn to_pkcs8(&self, key: &[u8], is_public: bool) -> (r: Vec<u8>)
        requires
            key@.len() <= MAX_KEY_STRUCTURE_LEN,
        ensures
            r@ == self.pkcs8_spec(key@, is_public),
    {
        let mut content: Vec<u8> = Vec::new();
        if !is_public {
            let zero: [u8; 1] = [0];
            let mut version = encode_unsigned_integer(zero.as_slice());
            assert(zero@ =~= seq![0u8]);
            content.append(&mut version);
        }
        let mut alg = self.algorithm_identifier();
        content.append(&mut alg);
        if is_public {
            let mut bits = encode_bit_string(key, 0);
            content.append(&mut bits);
        } else {
            let mut octets = encode_octet_string(key);
            content.append(&mut octets);
        }
        let r = encode_sequence(&content);
        proof {
            if is_public {
                assert(content@ =~= self.algorithm_identifier_spec() + der_bit_string(key@, 0));
            } else {
                assert(content@ =~= der_unsigned_integer(seq![0u8])
                    + self.algorithm_identifier_spec() + der_octet_string(key@));
            }
        }
        r
    }

    /// Checks that `jwk` may serve this algorithm in a role with `use`
    /// value `usage` and key operations `op1` and `op2`.
    pub fn check_usage(&self, jwk: &Jwk, usage: &str, op1: &str, op2: &str) -> (r: Result<
        (),
        JoseError,
    >)
        ensures
            r == (match self.usage_fault(*jwk, usage@, op1@, op2@) {
                Some(f) => Err(JoseError::InvalidKeyFormat(f)),
                None => Ok(()),
            }),
    {
        let rsa = "RSA".to_owned();
        if !(jwk.key_type == rsa) {
            return Err(JoseError::InvalidKeyFormat(KeyFault::KeyType));
        }
        match &jwk.key_use {
            Some(u) => {
                let want = usage.to_owned();
                if !(*u == want) {
                    return Err(JoseError::InvalidKeyFormat(KeyFault::KeyUse));
                }
            },
            None => {},
        }
        if !jwk.is_for_key_operation(op1) || !jwk.is_for_key_operation(op2) {
            return Err(JoseError::InvalidKeyFormat(KeyFault::KeyOperations));
        }
        match &jwk.algorithm {
            Some(a) => {
                let want = self.name().to_owned();
                if !(*a == want) {
                    return Err(JoseError::InvalidKeyFormat(KeyFault::Algorithm));
                }
            },
            None => {},
        }
        Ok(())
    }
}

/// The largest key structure that `to_pkcs8` wraps: the structure around it
/// adds at most this margin, and the result must have a `usize` length.
pub const MAX_KEY_STRUCTURE_LEN: usize = usize::MAX - 1024;

/// The longest numeric key parameter accepted, in bytes; far above any RSA key.
pub const MAX_INTEGER_LEN: usize = 0x10_0000;

/// The shortest modulus accepted, in bits.
pub const MIN_MODULUS_BITS: u32 = 2048;

/// The decoded bytes of the numeric parameter `name` of `jwk`.
pub open spec fn parameter_bytes(jwk: Jwk, name: Seq<char>) -> Result<Seq<u8>, KeyFault> {
    match jwk.parameter_spec(name) {
        None => Err(KeyFault::MissingParameter),
        Some(JwkValue::NotText) => Err(KeyFault::ParameterNotString),
        Some(JwkValue::Text(s)) => match base64url_decoded(s@) {
            None => Err(KeyFault::ParameterEncoding),
            Some(b) => if b.len() > MAX_INTEGER_LEN {
                Err(KeyFault::ParameterTooLong)
            } else {
                Ok(b)
            },
        },
    }
}

/// The decoded parameters `names`, in order, or the fault of the first that
/// fails.
pub open spec fn parameters_bytes(jwk: Jwk, names: Seq<Seq<char>>) -> Result<
    Seq<Seq<u8>>,
    KeyFault,
>
    decreases names.len(),
{
    if names.len() == 0 {
        Ok(Seq::empty())
    } else {
        match parameters_bytes(jwk, names.drop_last()) {
            Err(f) => Err(f),
            Ok(v) => match parameter_bytes(jwk, names.last()) {
                Err(f) => Err(f),
                Ok(b) => Ok(v.push(b)),
            },
        }
    }
}

/// The INTEGER elements of `vals`, one after another.
pub open spec fn integers(vals: Seq<Seq<u8>>) -> Seq<u8>
    decreases vals.len(),
{
    if vals.len() == 0 {
        Seq::empty()
    } else {
        integers(vals.drop_last()) + der_unsigned_integer(vals.last())
    }
}

/// `RSAPublicKey ::= SEQUENCE { n, e }` for `vals == [n, e]`.
pub open spec fn rsa_public_key_spec(vals: Seq<Seq<u8>>) -> Seq<u8> {
    der_sequence(integers(vals))
}

/// `RSAPrivateKey ::= SEQUENCE { version 0, n, e, d, p, q, dp, dq, qi }` for
/// `vals == [n, e, d, p, q, dp, dq, qi]`.
pub open spec fn rsa_private_key_spec(vals: Seq<Seq<u8>>) -> Seq<u8> {
    der_sequence(der_unsigned_integer(seq![0u8]) + integers(vals))
}

pub open spec fn public_parameter_names() -> Seq<Seq<char>> {
    seq!["n"@, "e"@]
}

pub open spec fn private_parameter_names() -> Seq<Seq<char>> {
    seq!["n"@, "e"@, "d"@, "p"@, "q"@, "dp"@, "dq"@, "qi"@]
}

pub open spec fn names_view(names: Seq<&str>) -> Seq<Seq<char>> {
    names.map_values(|s: &str| s@)
}

proof fn lemma_fault_persists(jwk: Jwk, names: Seq<Seq<char>>, k: int)
    requires
        0 <= k <= names.len(),
        parameters_bytes(jwk, names.subrange(0, k)) is Err,
    ensures
        parameters_bytes(jwk, names) == parameters_bytes(jwk, names.subrange(0, k)),
    decreases names.len(),
{
    if k < names.len() {
        assert(names.drop_last().subrange(0, k) =~= names.subrange(0, k));
        lemma_fault_persists(jwk, names.drop_last(), k);
    } else {
        assert(names.subrange(0, k) =~= names);
    }
}

/// Decodes the numeric parameter `name` of `jwk`: base64url without padding
/// of an unsigned big-endian integer.
pub fn decode_parameter(jwk: &Jwk, name: &str) -> (r: Result<Vec<u8>, JoseError>)
    ensures
        (match parameter_bytes(*jwk, name@) {
            Ok(b) => r matches Ok(v) && v@ == b,
            Err(f) => r == Err::<Vec<u8>, JoseError>(JoseError::InvalidKeyFormat(f)),
        }),
{
    match jwk.parameter(name) {
        None => Err(JoseError::InvalidKeyFormat(KeyFault::MissingParameter)),
        Some(JwkValue::NotText) => Err(JoseError::InvalidKeyFormat(KeyFault::ParameterNotString)),
        Some(JwkValue::Text(s)) => match decode_base64url(s.as_str()) {
            None => Err(JoseError::InvalidKeyFormat(KeyFault::ParameterEncoding)),
            Some(b) => if b.len() > MAX_INTEGER_LEN {
                Err(JoseError::InvalidKeyFormat(KeyFault::ParameterTooLong))
            } else {
                Ok(b)
            },
        },
    }
}


/// Decodes the numeric parameters `names` of `jwk`, in order, stopping at
/// the first that fails.
pub fn decode_parameters(jwk: &Jwk, names: &Vec<&str>) -> (r: Result<Vec<Vec<u8>>, JoseError>)
    ensures
        (match parameters_bytes(*jwk, names_view(names@)) {
            Ok(v) => r matches Ok(out) && out@.map_values(|b: Vec<u8>| b@) == v,
            Err(f) => r == Err::<Vec<Vec<u8>>, JoseError>(JoseError::InvalidKeyFormat(f)),
        }),
        r matches Ok(out) ==> out@.len() == names@.len() && forall|j: int|
            0 <= j < out@.len() ==> (#[trigger] out@[j])@.len() <= MAX_INTEGER_LEN,
{
    let ghost all = names_view(names@);
    let mut out: Vec<Vec<u8>> = Vec::new();
    let mut i: usize = 0;
    assert(all.subrange(0, 0) =~= Seq::<Seq<char>>::empty());
    assert(out@.map_values(|b: Vec<u8>| b@) =~= Seq::<Seq<u8>>::empty());
    while i < names.len()
        invariant
            i <= names@.len(),
            all == names_view(names@),
            out@.len() == i,
            parameters_bytes(*jwk, all.subrange(0, i as int)) == Ok::<Seq<Seq<u8>>, KeyFault>(
                out@.map_values(|b: Vec<u8>| b@),
            ),
            forall|j: int| 0 <= j < out@.len() ==> (#[trigger] out@[j])@.len() <= MAX_INTEGER_LEN,
        decreases names@.len() - i,
    {
        let ghost prefix = all.subrange(0, i as int + 1);
        proof {
            assert(prefix.drop_last() =~= all.subrange(0, i as int));
            assert(prefix.last() == names@[i as int]@);
        }
        match decode_parameter(jwk, names[i]) {
            Err(e) => {
                proof {
                    lemma_fault_persists(*jwk, all, i as int + 1);
                }
                return Err(e);
            },
            Ok(b) => {
                let ghost prev = out@.map_values(|b: Vec<u8>| b@);
                let ghost bv = b@;
                out.push(b);
                i = i + 1;
                proof {
                    assert(out@.map_values(|b: Vec<u8>| b@) =~= prev.push(bv));
                    assert(prefix == all.subrange(0, i as int));
                }
            },
        }
    }
    assert(all.subrange(0, i as int) =~= all);
    Ok(out)
}


/// The INTEGER elements of `vals`, one after another.
pub fn encode_integers(vals: &Vec<Vec<u8>>) -> (r: Vec<u8>)
    requires
        vals@.len() <= 8,
        forall|j: int| 0 <= j < vals@.len() ==> (#[trigger] vals@[j])@.len() <= MAX_INTEGER_LEN,
    ensures
        r@ == integers(vals@.map_values(|b: Vec<u8>| b@)),
        r@.len() <= vals@.len() * (MAX_INTEGER_LEN + 11),
{
    let ghost all = vals@.map_values(|b: Vec<u8>| b@);
    let mut out: Vec<u8> = Vec::new();
    let mut i: usize = 0;
    assert(all.subrange(0, 0) =~= Seq::<Seq<u8>>::empty());
    while i < vals.len()
        invariant
            i <= vals@.len() <= 8,
            all == vals@.map_values(|b: Vec<u8>| b@),
            forall|j: int| 0 <= j < vals@.len() ==> (#[trigger] vals@[j])@.len() <= MAX_INTEGER_LEN,
            out@ == integers(all.subrange(0, i as int)),
            out@.len() <= i * 0x10_000b,
        decreases vals@.len() - i,
    {
        let ghost prefix = all.subrange(0, i as int + 1);
        proof {
            assert(prefix.drop_last() =~= all.subrange(0, i as int));
            assert(prefix.last() == vals@[i as int]@);
        }
        let mut element = encode_unsigned_integer(vals[i].as_slice());
        out.append(&mut element);
        i = i + 1;
        proof {
            assert(prefix == all.subrange(0, i as int));
            assert(out@ =~= integers(prefix));
        }
    }
    assert(all.subrange(0, i as int) =~= all);
    out
}

/// The DER `RSAPublicKey` of the decoded parameters `vals` (n, e), or the
/// DER `RSAPrivateKey` of version 0 (n, e, d, p, q, dp, dq, qi).
pub fn encode_rsa_key(vals: &Vec<Vec<u8>>, is_public: bool) -> (r: Vec<u8>)
    requires
        vals@.len() <= 8,
        forall|j: int| 0 <= j < vals@.len() ==> (#[trigger] vals@[j])@.len() <= MAX_INTEGER_LEN,
    ensures
        r@ == (if is_public {
            rsa_public_key_spec(vals@.map_values(|b: Vec<u8>| b@))
        } else {
            rsa_private_key_spec(vals@.map_values(|b: Vec<u8>| b@))
        }),
        r@.len() <= MAX_KEY_STRUCTURE_LEN,
{
    let mut content: Vec<u8> = Vec::new();
    if !is_public {
        let zero: [u8; 1] = [0];
        let mut version = encode_unsigned_integer(zero.as_slice());
        assert(zero@ =~= seq![0u8]);
        content.append(&mut version);
    }
    let mut ints = encode_integers(vals);
    content.append(&mut ints);
    assert(content@.len() <= 8 * (MAX_INTEGER_LEN + 11) + 12) by (nonlinear_arith)
        requires
            content@.len() <= vals@.len() * (MAX_INTEGER_LEN + 11) + 12,
            vals@.len() <= 8,
    ;
    encode_sequence(&content)
}

/// Checks a key size reported in bits against the 2048-bit minimum.
pub fn check_modulus_bits(bits: u32) -> (r: Result<(), JoseError>)
    ensures
        r == (if bits < MIN_MODULUS_BITS {
            Err(JoseError::InvalidKeyFormat(KeyFault::KeyTooShort))
        } else {
            Ok(())
        }),
{
    if bits < MIN_MODULUS_BITS {
        Err(JoseError::InvalidKeyFormat(KeyFault::KeyTooShort))
    } else {
        Ok(())
    }
}

/// Checks the length of an unwrapped key against the expected `key_len`.
pub fn check_unwrapped_len(key: Vec<u8>, key_len: usize) -> (r: Result<Vec<u8>, JoseError>)
    ensures
        key@.len() == key_len ==> r == Ok::<Vec<u8>, JoseError>(key),
        key@.len() != key_len ==> r == Err::<Vec<u8>, JoseError>(
            JoseError::InvalidJweFormat(MessageFault::UnwrappedKeyLength),
        ),
{
    if key.len() != key_len {
        Err(JoseError::InvalidJweFormat(MessageFault::UnwrappedKeyLength))
    } else {
        Ok(key)
    }
}


impl RsaesJweAlgorithm {
    /// The key structure the encrypter factory hands to the key parser for
    /// `jwk`, or the fault found before that. The parser reads RSA keys under
    /// the `rsaEncryption` identifier only, so every variant hands it that
    /// form; the OAEP parameters stay with the variant, which picks the
    /// padding at each wrap.
    pub open spec fn public_der_for(self, jwk: Jwk) -> Result<Seq<u8>, KeyFault> {
        match self.usage_fault(jwk, "enc"@, "encrypt"@, "wrapKey"@) {
            Some(f) => Err(f),
            None => match parameters_bytes(jwk, public_parameter_names()) {
                Err(f) => Err(f),
                Ok(v) => Ok(RsaesJweAlgorithm::Rsa1_5.pkcs8_spec(rsa_public_key_spec(v), true)),
            },
        }
    }

    /// The key structure the decrypter factory hands to the key parser for
    /// `jwk`, or the fault found before that, in the `rsaEncryption` form as
    /// for the encrypter.
    pub open spec fn private_der_for(self, jwk: Jwk) -> Result<Seq<u8>, KeyFault> {
        match self.usage_fault(jwk, "enc"@, "decrypt"@, "unwrapKey"@) {
            Some(f) => Err(f),
            None => match parameters_bytes(jwk, private_parameter_names()) {
                Err(f) => Err(f),
                Ok(v) => Ok(RsaesJweAlgorithm::Rsa1_5.pkcs8_spec(rsa_private_key_spec(v), false)),
            },
        }
    }

    /// An encrypter for this algorithm with the public key of `jwk`.
    pub fn encrypter_from_jwk(&self, jwk: &Jwk) -> (r: Result<RsaesJweEncrypter, JoseError>)
        ensures
            (match self.public_der_for(*jwk) {
                Err(f) => r == Err::<RsaesJweEncrypter, JoseError>(JoseError::InvalidKeyFormat(f)),
                Ok(der) => match public_key_bits(der) {
                    None => r == Err::<RsaesJweEncrypter, JoseError>(
                        JoseError::InvalidKeyFormat(KeyFault::KeyRejected),
                    ),
                    Some(b) => if b < MIN_MODULUS_BITS {
                        r == Err::<RsaesJweEncrypter, JoseError>(
                            JoseError::InvalidKeyFormat(KeyFault::KeyTooShort),
                        )
                    } else {
                        r matches Ok(enc) && enc.algorithm_spec() == *self && enc.key_der_spec()
                            == der && enc.key_id_spec() == opt_view(jwk.key_id)
                            && enc.modulus_bits_spec() == b && enc.wf()
                    },
                },
            }),
    {
        self.check_usage(jwk, "enc", "encrypt", "wrapKey")?;
        let names: Vec<&str> = vec!["n", "e"];
        assert(names_view(names@) =~= public_parameter_names());
        let vals = decode_parameters(jwk, &names)?;
        let key = encode_rsa_key(&vals, true);
        let der = RsaesJweAlgorithm::Rsa1_5.to_pkcs8(key.as_slice(), true);
        let (public_key, modulus_bits) = match parse_public_key(der.as_slice()) {
            Ok(parsed) => parsed,
            Err(_) => {
                return Err(JoseError::InvalidKeyFormat(KeyFault::KeyRejected));
            },
        };
        check_modulus_bits(modulus_bits)?;
        let key_id = match jwk.key_id() {
            Some(k) => Some(k.to_owned()),
            None => None,
        };
        Ok(RsaesJweEncrypter {
            algorithm: *self,
            public_key,
            modulus_bits,
            key_id,
            key_der: Ghost(der@),
        })
    }

    /// A decrypter for this algorithm with the private key of `jwk`.
    pub fn decrypter_from_jwk(&self, jwk: &Jwk) -> (r: Result<RsaesJweDecrypter, JoseError>)
        ensures
            (match self.private_der_for(*jwk) {
                Err(f) => r == Err::<RsaesJweDecrypter, JoseError>(JoseError::InvalidKeyFormat(f)),
                Ok(der) => match private_key_bits(der) {
                    None => r == Err::<RsaesJweDecrypter, JoseError>(
                        JoseError::InvalidKeyFormat(KeyFault::KeyRejected),
                    ),
                    Some(b) => if b < MIN_MODULUS_BITS {
                        r == Err::<RsaesJweDecrypter, JoseError>(
                            JoseError::InvalidKeyFormat(KeyFault::KeyTooShort),
                        )
                    } else {
                        r matches Ok(dec) && dec.algorithm_spec() == *self && dec.key_der_spec()
                            == der && dec.key_id_spec() == opt_view(jwk.key_id)
                            && dec.modulus_bits_spec() == b && dec.wf()
                    },
                },
            }),
    {
        self.check_usage(jwk, "enc", "decrypt", "unwrapKey")?;
        let names: Vec<&str> = vec!["n", "e", "d", "p", "q", "dp", "dq", "qi"];
        assert(names_view(names@) =~= private_parameter_names());
        let vals = decode_parameters(jwk, &names)?;
        let key = encode_rsa_key(&vals, false);
        let der = RsaesJweAlgorithm::Rsa1_5.to_pkcs8(key.as_slice(), false);
        let (private_key, modulus_bits) = match parse_private_key(der.as_slice()) {
            Ok(parsed) => parsed,
            Err(_) => {
                return Err(JoseError::InvalidKeyFormat(KeyFault::KeyRejected));
            },
        };
        check_modulus_bits(modulus_bits)?;
        let key_id = match jwk.key_id() {
            Some(k) => Some(k.to_owned()),
            None => None,
        };
        Ok(RsaesJweDecrypter {
            algorithm: *self,
            private_key,
            modulus_bits,
            key_id,
            key_der: Ghost(der@),
        })
    }
}

/// The sender side of an RSAES algorithm: a public key bound to a variant.
#[derive(Clone)]
pub struct RsaesJweEncrypter {
    algorithm: RsaesJweAlgorithm,
    public_key: PKey<Public>,
    modulus_bits: u32,
    key_id: Option<String>,
    key_der: Ghost<Seq<u8>>,
}

impl RsaesJweEncrypter {
    pub closed spec fn algorithm_spec(&self) -> RsaesJweAlgorithm {
        self.algorithm
    }

    /// The SubjectPublicKeyInfo the key was parsed from.
    pub closed spec fn key_der_spec(&self) -> Seq<u8> {
        self.key_der@
    }

    pub closed spec fn key_id_spec(&self) -> Option<Seq<char>> {
        opt_view(self.key_id)
    }

    /// The modulus length of the key, in bits.
    pub closed spec fn modulus_bits_spec(&self) -> u32 {
        self.modulus_bits
    }

    /// The key holds a modulus of at least 2048 bits.
    pub open spec fn wf(&self) -> bool {
        self.modulus_bits_spec() >= MIN_MODULUS_BITS
    }

    /// The algorithm the key is bound to.
    pub fn algorithm(&self) -> (r: RsaesJweAlgorithm)
        ensures
            r == self.algorithm_spec(),
    {
        self.algorithm
    }

    /// The key id.
    pub fn key_id(&self) -> (r: Option<&str>)
        ensures
            r matches Some(s) ==> self.key_id_spec() == Some(s@),
            r is None ==> self.key_id_spec() is None,
    {
        match &self.key_id {
            Some(s) => Some(s.as_str()),
            None => None,
        }
    }

    /// Sets the key id.
    pub fn set_key_id(&mut self, key_id: &str)
        ensures
            final(self).key_id_spec() == Some(key_id@),
            final(self).algorithm_spec() == old(self).algorithm_spec(),
            final(self).key_der_spec() == old(self).key_der_spec(),
            final(self).modulus_bits_spec() == old(self).modulus_bits_spec(),
    {
        self.key_id = Some(key_id.to_owned());
    }

    /// Clears the key id.
    pub fn remove_key_id(&mut self)
        ensures
            final(self).key_id_spec() is None,
            final(self).algorithm_spec() == old(self).algorithm_spec(),
            final(self).key_der_spec() == old(self).key_der_spec(),
            final(self).modulus_bits_spec() == old(self).modulus_bits_spec(),
    {
        self.key_id = None;
    }

    /// Draws a random content encryption key of `key_len` bytes, wraps it
    /// with the public key and, once the wrap has succeeded, writes the
    /// algorithm name into `header`. Returns the key and the wrapped key; on
    /// failure the header is left as it was.
    pub fn encrypt(&self, header: &mut JweHeader, key_len: usize) -> (r: Result<
        (Vec<u8>, Option<Vec<u8>>),
        JoseError,
    >)
        ensures
            r is Ok ==> final(header).algorithm_spec() == Some(self.algorithm_spec().name_spec()),
            r is Err ==> *final(header) == *old(header),
            r matches Ok((cek, wrapped)) ==> cek@.len() == key_len && wrapped is Some,
            r matches Err(e) ==> e == JoseError::InvalidKeyFormat(KeyFault::RandomSource) || e
                == JoseError::InvalidKeyFormat(KeyFault::KeyWrap),
            key_len > i32::MAX ==> r == Err::<(Vec<u8>, Option<Vec<u8>>), JoseError>(
                JoseError::InvalidKeyFormat(KeyFault::RandomSource),
            ),
    {
        if key_len > i32::MAX as usize {
            return Err(JoseError::InvalidKeyFormat(KeyFault::RandomSource));
        }
        let key = match random_bytes(key_len) {
            Ok(k) => k,
            Err(_) => {
                return Err(JoseError::InvalidKeyFormat(KeyFault::RandomSource));
            },
        };
        let wrapped = match self.algorithm.oaep_hash() {
            None => rsa_encrypt_pkcs1(&self.public_key, key.as_slice()),
            Some(h) => rsa_encrypt_oaep(&self.public_key, h, key.as_slice()),
        };
        match wrapped {
            Ok(w) => {
                header.set_algorithm(self.algorithm.name());
                Ok((key, Some(w)))
            },
            Err(_) => Err(JoseError::InvalidKeyFormat(KeyFault::KeyWrap)),
        }
    }
}

/// The receiver side of an RSAES algorithm: a private key bound to a variant.
#[derive(Clone)]
pub struct RsaesJweDecrypter {
    algorithm: RsaesJweAlgorithm,
    private_key: PKey<Private>,
    modulus_bits: u32,
    key_id: Option<String>,
    key_der: Ghost<Seq<u8>>,
}

impl RsaesJweDecrypter {
    pub closed spec fn algorithm_spec(&self) -> RsaesJweAlgorithm {
        self.algorithm
    }

    /// The PrivateKeyInfo the key was parsed from.
    pub closed spec fn key_der_spec(&self) -> Seq<u8> {
        self.key_der@
    }

    pub closed spec fn key_id_spec(&self) -> Option<Seq<char>> {
        opt_view(self.key_id)
    }

    /// The modulus length of the key, in bits.
    pub closed spec fn modulus_bits_spec(&self) -> u32 {
        self.modulus_bits
    }

    /// The key holds a modulus of at least 2048 bits.
    pub open spec fn wf(&self) -> bool {
        self.modulus_bits_spec() >= MIN_MODULUS_BITS
    }

    /// The algorithm the key is bound to.
    pub fn algorithm(&self) -> (r: RsaesJweAlgorithm)
        ensures
            r == self.algorithm_spec(),
    {
        self.algorithm
    }

    /// The key id.
    pub fn key_id(&self) -> (r: Option<&str>)
        ensures
            r matches Some(s) ==> self.key_id_spec() == Some(s@),
            r is None ==> self.key_id_spec() is None,
    {
        match &self.key_id {
            Some(s) => Some(s.as_str()),
            None => None,
        }
    }

    /// Sets the key id.
    pub fn set_key_id(&mut self, key_id: &str)
        ensures
            final(self).key_id_spec() == Some(key_id@),
            final(self).algorithm_spec() == old(self).algorithm_spec(),
            final(self).key_der_spec() == old(self).key_der_spec(),
            final(self).modulus_bits_spec() == old(self).modulus_bits_spec(),
    {
        self.key_id = Some(key_id.to_owned());
    }

    /// Clears the key id.
    pub fn remove_key_id(&mut self)
        ensures
            final(self).key_id_spec() is None,
            final(self).algorithm_spec() == old(self).algorithm_spec(),
            final(self).key_der_spec() == old(self).key_der_spec(),
            final(self).modulus_bits_spec() == old(self).modulus_bits_spec(),
    {
        self.key_id = None;
    }

    /// Unwraps `encrypted_key` with the private key and checks that the
    /// content encryption key recovered has `key_len` bytes.
    pub fn decrypt(&self, _header: &JweHeader, encrypted_key: Option<&[u8]>, key_len: usize) -> (r:
        Result<Vec<u8>, JoseError>)
        ensures
            encrypted_key is None ==> r == Err::<Vec<u8>, JoseError>(
                JoseError::InvalidJweFormat(MessageFault::MissingEncryptedKey),
            ),
            r matches Ok(k) ==> k@.len() == key_len,
            encrypted_key is Some ==> (r matches Err(e) ==> e == JoseError::InvalidJweFormat(
                MessageFault::KeyUnwrap,
            ) || e == JoseError::InvalidJweFormat(MessageFault::UnwrappedKeyLength)),
    {
        let encrypted_key = match encrypted_key {
            Some(k) => k,
            None => {
                return Err(JoseError::InvalidJweFormat(MessageFault::MissingEncryptedKey));
            },
        };
        let unwrapped = match self.algorithm.oaep_hash() {
            None => rsa_decrypt_pkcs1(&self.private_key, encrypted_key),
            Some(h) => rsa_decrypt_oaep(&self.private_key, h, encrypted_key),
        };
        match unwrapped {
            Ok(key) => check_unwrapped_len(key, key_len),
            Err(_) => Err(JoseError::InvalidJweFormat(MessageFault::KeyUnwrap)),
        }
    }
}


/// A key whose `kty` is not `RSA` is refused by both factories of every
/// variant, for the key type, before any parameter is read.
pub proof fn lemma_non_rsa_key_refused(alg: RsaesJweAlgorithm, jwk: Jwk)
    requires
        jwk.key_type@ != "RSA"@,
    ensures
        alg.public_der_for(jwk) == Err::<Seq<u8>, KeyFault>(KeyFault::KeyType),
        alg.private_der_for(jwk) == Err::<Seq<u8>, KeyFault>(KeyFault::KeyType),
{
}

} // verus!
