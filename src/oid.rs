//! The object identifiers that RSAES key structures name.
use vstd::prelude::*;

use crate::der::{arcs_well_formed, der_object_identifier, encode_object_identifier};

verus! {

/// The fixed table of object identifiers used in RSA key structures.
#[derive(Clone, Copy, Debug, PartialEq, Eq, Structural)]
pub enum Oid {
    /// rsaEncryption (PKCS #1)
    RsaEncryption,
    /// id-RSAES-OAEP (PKCS #1)
    RsaesOaep,
    /// id-pSpecified (PKCS #1)
    PSpecified,
    /// id-mgf1 (PKCS #1)
    Mgf1,
    /// id-sha1
    Sha1,
    /// id-sha256
    Sha256,
    /// id-sha384
    Sha384,
    /// id-sha512
    Sha512,
}

impl Oid {
    /// The arcs of the identifier.
    pub open spec fn arcs_spec(self) -> Seq<u64> {
        match self {
            Oid::RsaEncryption => seq![1, 2, 840, 113549, 1, 1, 1],
            Oid::RsaesOaep => seq![1, 2, 840, 113549, 1, 1, 7],
            Oid::PSpecified => seq![1, 2, 840, 113549, 1, 1, 9],
            Oid::Mgf1 => seq![1, 2, 840, 113549, 1, 1, 8],
            Oid::Sha1 => seq![1, 3, 14, 3, 2, 26],
            Oid::Sha256 => seq![2, 16, 840, 1, 101, 3, 4, 2, 1],
            Oid::Sha384 => seq![2, 16, 840, 1, 101, 3, 4, 2, 2],
            Oid::Sha512 => seq![2, 16, 840, 1, 101, 3, 4, 2, 3],
        }
    }

    /// The OBJECT IDENTIFIER element that names this identifier.
    pub open spec fn der_spec(self) -> Seq<u8> {
        der_object_identifier(self.arcs_spec())
    }

    pub proof fn lemma_arcs_well_formed(self)
        ensures
            arcs_well_formed(self.arcs_spec()),
            self.arcs_spec().len() <= 9,
    {
        let a = self.arcs_spec();
        assert forall|i: int| 0 <= i < a.len() implies #[trigger] a[i] < 0x1_0000_0000 by {
            assert(a[i] <= 113549);
        }
    }

    /// The arcs of the identifier.
    pub fn arcs(&self) -> (r: Vec<u64>)
        ensures
            r@ == self.arcs_spec(),
    {
        let r: Vec<u64> = match self {
            Oid::RsaEncryption => vec![1, 2, 840, 113549, 1, 1, 1],
            Oid::RsaesOaep => vec![1, 2, 840, 113549, 1, 1, 7],
            Oid::PSpecified => vec![1, 2, 840, 113549, 1, 1, 9],
            Oid::Mgf1 => vec![1, 2, 840, 113549, 1, 1, 8],
            Oid::Sha1 => vec![1, 3, 14, 3, 2, 26],
            Oid::Sha256 => vec![2, 16, 840, 1, 101, 3, 4, 2, 1],
            Oid::Sha384 => vec![2, 16, 840, 1, 101, 3, 4, 2, 2],
            Oid::Sha512 => vec![2, 16, 840, 1, 101, 3, 4, 2, 3],
        };
        assert(r@ =~= self.arcs_spec());
        r
    }

    /// The OBJECT IDENTIFIER element that names this identifier.
    pub fn to_der(&self) -> (r: Vec<u8>)
        ensures
            r@ == self.der_spec(),
            r@.len() <= 64,
    {
        proof {
            self.lemma_arcs_well_formed();
        }
        let arcs = self.arcs();
        encode_object_identifier(&arcs)
    }
}

} // verus!
