use jwe_rsaes::der::{
    encode_bit_string, encode_context, encode_length, encode_null, encode_object_identifier,
    encode_octet_string, encode_sequence, encode_unsigned_integer,
};
use jwe_rsaes::oid::Oid;
use jwe_rsaes::rsaes::{encode_rsa_key, RsaesJweAlgorithm};

#[test]
fn der_lengths() {
    assert_eq!(encode_length(0), vec![0x00]);
    assert_eq!(encode_length(127), vec![0x7f]);
    assert_eq!(encode_length(128), vec![0x81, 0x80]);
    assert_eq!(encode_length(255), vec![0x81, 0xff]);
    assert_eq!(encode_length(256), vec![0x82, 0x01, 0x00]);
    assert_eq!(encode_length(300), vec![0x82, 0x01, 0x2c]);
    assert_eq!(encode_length(0x10000), vec![0x83, 0x01, 0x00, 0x00]);
}

#[test]
fn der_unsigned_integers() {
    assert_eq!(encode_unsigned_integer(&[]), vec![0x02, 0x01, 0x00]);
    assert_eq!(encode_unsigned_integer(&[0, 0, 0]), vec![0x02, 0x01, 0x00]);
    assert_eq!(encode_unsigned_integer(&[0x01, 0x00, 0x01]), vec![0x02, 0x03, 0x01, 0x00, 0x01]);
    assert_eq!(encode_unsigned_integer(&[0x80]), vec![0x02, 0x02, 0x00, 0x80]);
    assert_eq!(encode_unsigned_integer(&[0x00, 0x7f]), vec![0x02, 0x01, 0x7f]);
    assert_eq!(encode_unsigned_integer(&[0x00, 0xff, 0x01]), vec![0x02, 0x03, 0x00, 0xff, 0x01]);
}

#[test]
fn der_simple_elements() {
    assert_eq!(encode_null(), vec![0x05, 0x00]);
    assert_eq!(encode_bit_string(&[0xaa, 0xbb], 0), vec![0x03, 0x03, 0x00, 0xaa, 0xbb]);
    assert_eq!(encode_octet_string(&[1, 2]), vec![0x04, 0x02, 1, 2]);
    assert_eq!(encode_sequence(&vec![0x05, 0x00]), vec![0x30, 0x02, 0x05, 0x00]);
    assert_eq!(encode_context(2, &vec![0x05, 0x00]), vec![0xa2, 0x02, 0x05, 0x00]);
    let long = vec![7u8; 200];
    let seq = encode_sequence(&long);
    assert_eq!(&seq[..3], &[0x30, 0x81, 200]);
    assert_eq!(seq.len(), 203);
}

#[test]
fn der_object_identifiers() {
    assert_eq!(
        Oid::RsaEncryption.to_der(),
        vec![0x06, 0x09, 0x2a, 0x86, 0x48, 0x86, 0xf7, 0x0d, 0x01, 0x01, 0x01]
    );
    assert_eq!(
        Oid::RsaesOaep.to_der(),
        vec![0x06, 0x09, 0x2a, 0x86, 0x48, 0x86, 0xf7, 0x0d, 0x01, 0x01, 0x07]
    );
    assert_eq!(Oid::Sha1.to_der(), vec![0x06, 0x05, 0x2b, 0x0e, 0x03, 0x02, 0x1a]);
    assert_eq!(
        Oid::Sha256.to_der(),
        vec![0x06, 0x09, 0x60, 0x86, 0x48, 0x01, 0x65, 0x03, 0x04, 0x02, 0x01]
    );
    assert_eq!(encode_object_identifier(&vec![2, 999, 3]), vec![0x06, 0x03, 0x88, 0x37, 0x03]);
}

#[test]
fn pkcs8_rsa1_5_public() {
    let der = RsaesJweAlgorithm::Rsa1_5.to_pkcs8(&[0x30, 0x00], true);
    let mut want = vec![0x30, 0x14, 0x30, 0x0d];
    want.extend_from_slice(&[0x06, 0x09, 0x2a, 0x86, 0x48, 0x86, 0xf7, 0x0d, 0x01, 0x01, 0x01]);
    want.extend_from_slice(&[0x05, 0x00, 0x03, 0x03, 0x00, 0x30, 0x00]);
    assert_eq!(der, want);
}

#[test]
fn pkcs8_oaep_private() {
    let der = RsaesJweAlgorithm::RsaOaep.to_pkcs8(&[0x30, 0x00], false);
    let sha1 = [0x06, 0x05, 0x2b, 0x0e, 0x03, 0x02, 0x1a];
    let mut params = vec![0xa0, 0x09, 0x30, 0x07];
    params.extend_from_slice(&sha1);
    params.extend_from_slice(&[0xa1, 0x16, 0x30, 0x14]);
    params.extend_from_slice(&[0x06, 0x09, 0x2a, 0x86, 0x48, 0x86, 0xf7, 0x0d, 0x01, 0x01, 0x08]);
    params.extend_from_slice(&[0x30, 0x07]);
    params.extend_from_slice(&sha1);
    params.extend_from_slice(&[0xa2, 0x0b]);
    params.extend_from_slice(&[0x06, 0x09, 0x2a, 0x86, 0x48, 0x86, 0xf7, 0x0d, 0x01, 0x01, 0x09]);
    let mut alg = vec![0x06, 0x09, 0x2a, 0x86, 0x48, 0x86, 0xf7, 0x0d, 0x01, 0x01, 0x07];
    alg.push(0x30);
    alg.push(params.len() as u8);
    alg.extend_from_slice(&params);
    let mut content = vec![0x02, 0x01, 0x00, 0x30, alg.len() as u8];
    content.extend_from_slice(&alg);
    content.extend_from_slice(&[0x04, 0x02, 0x30, 0x00]);
    let mut want = vec![0x30, content.len() as u8];
    want.extend_from_slice(&content);
    assert_eq!(der, want);
    assert_eq!(RsaesJweAlgorithm::RsaOaep512.hash_oid(), Oid::Sha512);
}

#[test]
fn rsa_key_structures() {
    let vals = vec![vec![0x00, 0xc1], vec![0x01, 0x00, 0x01]];
    assert_eq!(
        encode_rsa_key(&vals, true),
        vec![0x30, 0x09, 0x02, 0x02, 0x00, 0xc1, 0x02, 0x03, 0x01, 0x00, 0x01]
    );
    assert_eq!(
        encode_rsa_key(&vals, false),
        vec![0x30, 0x0c, 0x02, 0x01, 0x00, 0x02, 0x02, 0x00, 0xc1, 0x02, 0x03, 0x01, 0x00, 0x01]
    );
}
