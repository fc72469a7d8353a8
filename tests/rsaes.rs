use jwe_rsaes::aes_gcm::AesGcmJweEncryption;
use jwe_rsaes::error::{JoseError, KeyFault, MessageFault};
use jwe_rsaes::header::JweHeader;
use jwe_rsaes::jwk::{Jwk, JwkValue};
use jwe_rsaes::rsaes::{decode_parameter, RsaesJweAlgorithm};
use openssl::bn::BigNumRef;
use openssl::rsa::Rsa;

const ALL: [RsaesJweAlgorithm; 5] = [
    RsaesJweAlgorithm::Rsa1_5,
    RsaesJweAlgorithm::RsaOaep,
    RsaesJweAlgorithm::RsaOaep256,
    RsaesJweAlgorithm::RsaOaep384,
    RsaesJweAlgorithm::RsaOaep512,
];

fn b64(n: &BigNumRef) -> JwkValue {
    JwkValue::Text(base64::encode_config(n.to_vec(), base64::URL_SAFE_NO_PAD))
}

fn key_pair(bits: u32) -> (Jwk, Jwk) {
    let rsa = Rsa::generate(bits).unwrap();
    let mut public = Jwk::new("RSA");
    public.set_parameter("n", b64(rsa.n()));
    public.set_parameter("e", b64(rsa.e()));
    let mut private = public.clone();
    private.set_parameter("d", b64(rsa.d()));
    private.set_parameter("p", b64(rsa.p().unwrap()));
    private.set_parameter("q", b64(rsa.q().unwrap()));
    private.set_parameter("dp", b64(rsa.dmp1().unwrap()));
    private.set_parameter("dq", b64(rsa.dmq1().unwrap()));
    private.set_parameter("qi", b64(rsa.iqmp().unwrap()));
    (public, private)
}

fn key_error<T>(r: Result<T, JoseError>) -> JoseError {
    match r {
        Ok(_) => panic!("expected an error"),
        Err(e) => e,
    }
}

#[test]
fn round_trip_every_variant() {
    let (public, private) = key_pair(2048);
    for alg in ALL.iter() {
        let enc = alg.encrypter_from_jwk(&public).unwrap();
        let dec = alg.decrypter_from_jwk(&private).unwrap();
        for len in [16usize, 24, 32, 64] {
            let mut header = JweHeader::new();
            let (cek, wrapped) = enc.encrypt(&mut header, len).unwrap();
            assert_eq!(cek.len(), len);
            let wrapped = wrapped.unwrap();
            let recovered = dec.decrypt(&header, Some(&wrapped), len).unwrap();
            assert_eq!(recovered, cek);
        }
    }
}

#[test]
fn oaep_scenario_2048() {
    let (public, private) = key_pair(2048);
    let alg = RsaesJweAlgorithm::RsaOaep;
    let enc = alg.encrypter_from_jwk(&public).unwrap();
    let dec = alg.decrypter_from_jwk(&private).unwrap();
    let mut header = JweHeader::new();
    let (cek, wrapped) = enc.encrypt(&mut header, 16).unwrap();
    let wrapped = wrapped.unwrap();
    assert_eq!(cek.len(), 16);
    assert_eq!(wrapped.len(), 256);
    assert_eq!(dec.decrypt(&header, Some(&wrapped), 16).unwrap(), cek);
}

#[test]
fn wrong_key_type_rejected() {
    let (mut public, mut private) = key_pair(2048);
    public.key_type = "EC".to_string();
    private.key_type = "oct".to_string();
    for alg in ALL.iter() {
        assert_eq!(
            key_error(alg.encrypter_from_jwk(&public)),
            JoseError::InvalidKeyFormat(KeyFault::KeyType)
        );
        assert_eq!(
            key_error(alg.decrypter_from_jwk(&private)),
            JoseError::InvalidKeyFormat(KeyFault::KeyType)
        );
    }
}

#[test]
fn short_modulus_rejected() {
    let (public, private) = key_pair(1024);
    for alg in [RsaesJweAlgorithm::Rsa1_5, RsaesJweAlgorithm::RsaOaep] {
        assert_eq!(
            key_error(alg.encrypter_from_jwk(&public)),
            JoseError::InvalidKeyFormat(KeyFault::KeyTooShort)
        );
        assert_eq!(
            key_error(alg.decrypter_from_jwk(&private)),
            JoseError::InvalidKeyFormat(KeyFault::KeyTooShort)
        );
    }
}

#[test]
fn missing_wrapped_key_fails() {
    let (_, private) = key_pair(2048);
    let header = JweHeader::new();
    for alg in ALL.iter() {
        let dec = alg.decrypter_from_jwk(&private).unwrap();
        assert_eq!(
            key_error(dec.decrypt(&header, None, 16)),
            JoseError::InvalidJweFormat(MessageFault::MissingEncryptedKey)
        );
    }
}

#[test]
fn unwrapped_length_mismatch_fails() {
    let (public, private) = key_pair(2048);
    let alg = RsaesJweAlgorithm::RsaOaep256;
    let enc = alg.encrypter_from_jwk(&public).unwrap();
    let dec = alg.decrypter_from_jwk(&private).unwrap();
    let mut header = JweHeader::new();
    let (_, wrapped) = enc.encrypt(&mut header, 16).unwrap();
    assert_eq!(
        key_error(dec.decrypt(&header, Some(&wrapped.unwrap()), 32)),
        JoseError::InvalidJweFormat(MessageFault::UnwrappedKeyLength)
    );
}

#[test]
fn corrupted_wrapped_key_fails() {
    let (public, private) = key_pair(2048);
    let alg = RsaesJweAlgorithm::RsaOaep;
    let enc = alg.encrypter_from_jwk(&public).unwrap();
    let dec = alg.decrypter_from_jwk(&private).unwrap();
    let mut header = JweHeader::new();
    let (_, wrapped) = enc.encrypt(&mut header, 16).unwrap();
    let mut wrapped = wrapped.unwrap();
    wrapped[10] ^= 0x01;
    assert_eq!(
        key_error(dec.decrypt(&header, Some(&wrapped), 16)),
        JoseError::InvalidJweFormat(MessageFault::KeyUnwrap)
    );
}

#[test]
fn header_algorithm_overwritten() {
    let (public, _) = key_pair(2048);
    let names = ["RSA1_5", "RSA-OAEP", "RSA-OAEP-256", "RSA-OAEP-384", "RSA-OAEP-512"];
    for (alg, name) in ALL.iter().zip(names.iter()) {
        let enc = alg.encrypter_from_jwk(&public).unwrap();
        let mut header = JweHeader::new();
        header.set_algorithm("dir");
        enc.encrypt(&mut header, 16).unwrap();
        assert_eq!(header.algorithm(), Some(*name));
        assert_eq!(alg.name(), *name);
    }
}

#[test]
fn key_use_must_be_enc() {
    let (mut public, mut private) = key_pair(2048);
    public.key_use = Some("sig".to_string());
    private.key_use = Some("sig".to_string());
    let alg = RsaesJweAlgorithm::RsaOaep;
    assert_eq!(
        key_error(alg.encrypter_from_jwk(&public)),
        JoseError::InvalidKeyFormat(KeyFault::KeyUse)
    );
    assert_eq!(
        key_error(alg.decrypter_from_jwk(&private)),
        JoseError::InvalidKeyFormat(KeyFault::KeyUse)
    );
    public.key_use = Some("enc".to_string());
    private.key_use = Some("enc".to_string());
    assert!(alg.encrypter_from_jwk(&public).is_ok());
    assert!(alg.decrypter_from_jwk(&private).is_ok());
}

#[test]
fn key_operations_checked() {
    let (mut public, mut private) = key_pair(2048);
    public.key_operations = Some(vec!["encrypt".to_string()]);
    private.key_operations = Some(vec!["decrypt".to_string(), "unwrapKey".to_string()]);
    let alg = RsaesJweAlgorithm::Rsa1_5;
    assert_eq!(
        key_error(alg.encrypter_from_jwk(&public)),
        JoseError::InvalidKeyFormat(KeyFault::KeyOperations)
    );
    assert!(alg.decrypter_from_jwk(&private).is_ok());
    public.key_operations = Some(vec!["wrapKey".to_string(), "encrypt".to_string()]);
    assert!(alg.encrypter_from_jwk(&public).is_ok());
}

#[test]
fn algorithm_binding_checked() {
    let (mut public, _) = key_pair(2048);
    public.algorithm = Some("RSA-OAEP".to_string());
    assert!(RsaesJweAlgorithm::RsaOaep.encrypter_from_jwk(&public).is_ok());
    assert_eq!(
        key_error(RsaesJweAlgorithm::RsaOaep256.encrypter_from_jwk(&public)),
        JoseError::InvalidKeyFormat(KeyFault::Algorithm)
    );
}

#[test]
fn parameter_faults() {
    let (public, _) = key_pair(2048);
    let alg = RsaesJweAlgorithm::RsaOaep;
    let mut missing = Jwk::new("RSA");
    missing.set_parameter("n", public.parameter("n").unwrap().clone());
    assert_eq!(
        key_error(alg.encrypter_from_jwk(&missing)),
        JoseError::InvalidKeyFormat(KeyFault::MissingParameter)
    );
    let mut not_text = public.clone();
    not_text.set_parameter("e", JwkValue::NotText);
    assert_eq!(
        key_error(alg.encrypter_from_jwk(&not_text)),
        JoseError::InvalidKeyFormat(KeyFault::ParameterNotString)
    );
    let mut bad = public.clone();
    bad.set_parameter("e", JwkValue::Text("AQ+B".to_string()));
    assert_eq!(
        key_error(alg.encrypter_from_jwk(&bad)),
        JoseError::InvalidKeyFormat(KeyFault::ParameterEncoding)
    );
}

#[test]
fn key_id_copied_and_edited() {
    let (mut public, _) = key_pair(2048);
    public.key_id = Some("k1".to_string());
    let mut enc = RsaesJweAlgorithm::RsaOaep.encrypter_from_jwk(&public).unwrap();
    assert_eq!(enc.key_id(), Some("k1"));
    let copy = enc.clone();
    enc.set_key_id("k2");
    assert_eq!(enc.key_id(), Some("k2"));
    assert_eq!(copy.key_id(), Some("k1"));
    enc.remove_key_id();
    assert_eq!(enc.key_id(), None);
    assert_eq!(enc.algorithm(), RsaesJweAlgorithm::RsaOaep);
}

#[test]
fn base64url_parameter_decoded() {
    let mut jwk = Jwk::new("RSA");
    jwk.set_parameter("e", JwkValue::Text("AQAB".to_string()));
    jwk.set_parameter("x", JwkValue::Text("_-8".to_string()));
    assert_eq!(decode_parameter(&jwk, "e").unwrap(), vec![1u8, 0, 1]);
    assert_eq!(decode_parameter(&jwk, "x").unwrap(), vec![0xffu8, 0xef]);
    assert_eq!(
        key_error(decode_parameter(&jwk, "y")),
        JoseError::InvalidKeyFormat(KeyFault::MissingParameter)
    );
}

#[test]
fn aes_gcm_names() {
    assert_eq!(AesGcmJweEncryption::A128Gcm.name(), "A128GCM");
    assert_eq!(AesGcmJweEncryption::A192Gcm.name(), "A192GCM");
    assert_eq!(AesGcmJweEncryption::A256Gcm.name(), "A256GCM");
}

#[test]
fn spki_matches_openssl() {
    let rsa = Rsa::generate(2048).unwrap();
    let want = openssl::pkey::PKey::from_rsa(rsa.clone()).unwrap().public_key_to_der().unwrap();
    let vals = vec![rsa.n().to_vec(), rsa.e().to_vec()];
    let key = jwe_rsaes::rsaes::encode_rsa_key(&vals, true);
    let got = RsaesJweAlgorithm::Rsa1_5.to_pkcs8(&key, true);
    assert_eq!(got, want);
}

#[test]
fn oversized_parameter_rejected() {
    let (public, _) = key_pair(2048);
    let mut big = public.clone();
    let bytes = vec![0x5au8; 0x10_0001];
    big.set_parameter("n", JwkValue::Text(base64::encode_config(&bytes, base64::URL_SAFE_NO_PAD)));
    assert_eq!(
        key_error(RsaesJweAlgorithm::RsaOaep.encrypter_from_jwk(&big)),
        JoseError::InvalidKeyFormat(KeyFault::ParameterTooLong)
    );
}

#[test]
fn oversized_cek_refused_header_kept() {
    let (public, _) = key_pair(2048);
    let enc = RsaesJweAlgorithm::RsaOaep384.encrypter_from_jwk(&public).unwrap();
    let mut header = JweHeader::new();
    header.set_algorithm("RSA1_5");
    assert_eq!(
        key_error(enc.encrypt(&mut header, i32::MAX as usize + 1)),
        JoseError::InvalidKeyFormat(KeyFault::RandomSource)
    );
    assert_eq!(header.algorithm(), Some("RSA1_5"));
}

#[test]
fn cek_too_long_to_wrap() {
    let (public, _) = key_pair(2048);
    for alg in ALL.iter() {
        let enc = alg.encrypter_from_jwk(&public).unwrap();
        let mut header = JweHeader::new();
        assert_eq!(
            key_error(enc.encrypt(&mut header, 300)),
            JoseError::InvalidKeyFormat(KeyFault::KeyWrap)
        );
        assert_eq!(header.algorithm(), None);
    }
}

#[test]
fn private_key_info_matches_openssl() {
    let rsa = Rsa::generate(2048).unwrap();
    let want = openssl::pkey::PKey::from_rsa(rsa.clone()).unwrap().private_key_to_pkcs8().unwrap();
    let vals = vec![
        rsa.n().to_vec(),
        rsa.e().to_vec(),
        rsa.d().to_vec(),
        rsa.p().unwrap().to_vec(),
        rsa.q().unwrap().to_vec(),
        rsa.dmp1().unwrap().to_vec(),
        rsa.dmq1().unwrap().to_vec(),
        rsa.iqmp().unwrap().to_vec(),
    ];
    let key = jwe_rsaes::rsaes::encode_rsa_key(&vals, false);
    assert_eq!(RsaesJweAlgorithm::Rsa1_5.to_pkcs8(&key, false), want);
}

#[test]
fn modulus_counted_in_bits() {
    let (public, private) = key_pair(2047);
    for alg in ALL.iter() {
        assert_eq!(
            key_error(alg.encrypter_from_jwk(&public)),
            JoseError::InvalidKeyFormat(KeyFault::KeyTooShort)
        );
        assert_eq!(
            key_error(alg.decrypter_from_jwk(&private)),
            JoseError::InvalidKeyFormat(KeyFault::KeyTooShort)
        );
    }
}

#[test]
fn unparsable_key_rejected() {
    let mut jwk = Jwk::new("RSA");
    jwk.set_parameter("n", JwkValue::Text("AQ".to_string()));
    jwk.set_parameter("e", JwkValue::Text("".to_string()));
    let r = RsaesJweAlgorithm::Rsa1_5.encrypter_from_jwk(&jwk);
    assert!(matches!(
        r.map(|_| ()),
        Err(JoseError::InvalidKeyFormat(KeyFault::KeyRejected))
            | Err(JoseError::InvalidKeyFormat(KeyFault::KeyTooShort))
    ));
}
