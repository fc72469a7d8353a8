//! A small DER encoder: each encoder returns the exact bytes of one
//! tag-length-value element, as the spec functions below define them.
use vstd::prelude::*;

verus! {

/// The largest content length the encoders accept: the element, with at
/// most ten bytes of tag and length, must still have a `usize` length.
pub const MAX_CONTENT_LEN: usize = usize::MAX - 16;

pub const TAG_INTEGER: u8 = 0x02;
pub const TAG_BIT_STRING: u8 = 0x03;
pub const TAG_OCTET_STRING: u8 = 0x04;
pub const TAG_NULL: u8 = 0x05;
pub const TAG_OBJECT_IDENTIFIER: u8 = 0x06;
pub const TAG_SEQUENCE: u8 = 0x30;
/// Constructed, context-specific tag `[0]`; `[n]` is this plus `n`.
pub const TAG_CONTEXT_SPECIFIC: u8 = 0xa0;

/// Minimal big-endian bytes of a positive number.
pub open spec fn be_bytes(n: nat) -> Seq<u8>
    decreases n,
{
    if n < 256 {
        seq![n as u8]
    } else {
        be_bytes(n / 256).push((n % 256) as u8)
    }
}

/// The DER length octets of a content of `n` bytes (definite form).
pub open spec fn der_length(n: nat) -> Seq<u8> {
    if n < 128 {
        seq![n as u8]
    } else {
        seq![(0x80 + be_bytes(n).len()) as u8] + be_bytes(n)
    }
}

/// One DER element: tag, length, content.
pub open spec fn tlv(tag: u8, content: Seq<u8>) -> Seq<u8> {
    seq![tag] + der_length(content.len()) + content
}

proof fn lemma_be_bytes_len(n: nat)
    requires
        n < 0x1_0000_0000_0000_0000,
    ensures
        1 <= be_bytes(n).len() <= 8,
{
    reveal_with_fuel(be_bytes, 8);
}

proof fn lemma_der_length_len(n: nat)
    requires
        n < 0x1_0000_0000_0000_0000,
    ensures
        1 <= der_length(n).len() <= 9,
{
    lemma_be_bytes_len(n);
}

fn be_bytes_of(n: usize) -> (r: Vec<u8>)
    ensures
        r@ == be_bytes(n as nat),
    decreases n,
{
    if n < 256 {
        vec![n as u8]
    } else {
        let mut r = be_bytes_of(n / 256);
        r.push((n % 256) as u8);
        r
    }
}

/// The length octets for a content of `n` bytes.
pub fn encode_length(n: usize) -> (r: Vec<u8>)
    requires
        n <= MAX_CONTENT_LEN,
    ensures
        r@ == der_length(n as nat),
        1 <= r@.len() <= 9,
{
    proof {
        lemma_der_length_len(n as nat);
    }
    if n < 128 {
        vec![n as u8]
    } else {
        let b = be_bytes_of(n);
        let mut r: Vec<u8> = vec![(0x80 + b.len()) as u8];
        let mut bc = b.clone();
        r.append(&mut bc);
        assert(r@ =~= der_length(n as nat));
        r
    }
}

/// The element with tag `tag` around `content`.
pub fn encode_tlv(tag: u8, content: &Vec<u8>) -> (r: Vec<u8>)
    requires
        content@.len() <= MAX_CONTENT_LEN,
    ensures
        r@ == tlv(tag, content@),
        r@.len() <= content@.len() + 10,
{
    let mut r: Vec<u8> = vec![tag];
    let mut len = encode_length(content.len());
    r.append(&mut len);
    let mut c = content.clone();
    r.append(&mut c);
    assert(r@ =~= tlv(tag, content@));
    r
}


/// `s` without its leading zero bytes.
pub open spec fn strip_leading_zeros(s: Seq<u8>) -> Seq<u8>
    decreases s.len(),
{
    if s.len() > 0 && s[0] == 0 {
        strip_leading_zeros(s.drop_first())
    } else {
        s
    }
}

/// Content octets of the INTEGER whose unsigned big-endian value is `s`:
/// minimal, with a zero byte in front where the top bit would read as a sign.
pub open spec fn unsigned_integer_content(s: Seq<u8>) -> Seq<u8> {
    let t = strip_leading_zeros(s);
    if t.len() == 0 {
        seq![0u8]
    } else if t[0] >= 0x80 {
        seq![0u8] + t
    } else {
        t
    }
}

pub open spec fn der_unsigned_integer(s: Seq<u8>) -> Seq<u8> {
    tlv(TAG_INTEGER, unsigned_integer_content(s))
}

pub open spec fn der_null() -> Seq<u8> {
    tlv(TAG_NULL, Seq::empty())
}

pub open spec fn der_bit_string(bits: Seq<u8>, unused_bits: u8) -> Seq<u8> {
    tlv(TAG_BIT_STRING, seq![unused_bits] + bits)
}

pub open spec fn der_octet_string(bytes: Seq<u8>) -> Seq<u8> {
    tlv(TAG_OCTET_STRING, bytes)
}

pub open spec fn der_sequence(content: Seq<u8>) -> Seq<u8> {
    tlv(TAG_SEQUENCE, content)
}

/// Constructed, context-specific `[n]` around `content`.
pub open spec fn der_context(n: u8, content: Seq<u8>) -> Seq<u8> {
    tlv((TAG_CONTEXT_SPECIFIC + n) as u8, content)
}

/// Base-128 digits of `n`, most significant first, each with the top bit set.
pub open spec fn base128_continued(n: nat) -> Seq<u8>
    decreases n,
{
    if n < 128 {
        seq![(n + 128) as u8]
    } else {
        base128_continued(n / 128).push((n % 128 + 128) as u8)
    }
}

/// One sub-identifier of an OBJECT IDENTIFIER: base-128 digits, most
/// significant first, the top bit set on all but the last.
pub open spec fn base128(n: nat) -> Seq<u8> {
    if n < 128 {
        seq![n as u8]
    } else {
        base128_continued(n / 128).push((n % 128) as u8)
    }
}

/// Sub-identifiers for `arcs`, one after another.
pub open spec fn base128_all(arcs: Seq<u64>) -> Seq<u8>
    decreases arcs.len(),
{
    if arcs.len() == 0 {
        Seq::empty()
    } else {
        base128_all(arcs.drop_last()) + base128(arcs.last() as nat)
    }
}

/// The value of the first sub-identifier: the first two arcs combined.
pub open spec fn first_subidentifier(arcs: Seq<u64>) -> nat {
    (40 * arcs[0] + arcs[1]) as nat
}

/// Content octets of an OBJECT IDENTIFIER: the first two arcs share one
/// sub-identifier, `40 * a0 + a1`.
pub open spec fn oid_content(arcs: Seq<u64>) -> Seq<u8> {
    base128(first_subidentifier(arcs)) + base128_all(arcs.subrange(2, arcs.len() as int))
}

pub open spec fn der_object_identifier(arcs: Seq<u64>) -> Seq<u8> {
    tlv(TAG_OBJECT_IDENTIFIER, oid_content(arcs))
}

/// An arc list the OID encoder takes: at least two arcs, the first at most 2,
/// the second below 40 under a first arc of 0 or 1, and all of them small.
pub open spec fn arcs_well_formed(arcs: Seq<u64>) -> bool {
    &&& 2 <= arcs.len() <= 64
    &&& arcs[0] <= 2
    &&& arcs[0] < 2 ==> arcs[1] < 40
    &&& forall|i: int| 0 <= i < arcs.len() ==> #[trigger] arcs[i] < 0x1_0000_0000
}

proof fn lemma_base128_continued_len(n: nat)
    requires
        n < 0x1_0000_0000,
    ensures
        1 <= base128_continued(n).len() <= 5,
{
    reveal_with_fuel(base128_continued, 5);
}

proof fn lemma_base128_len(n: nat)
    requires
        n < 0x2_0000_0000,
    ensures
        1 <= base128(n).len() <= 6,
{
    if n >= 128 {
        lemma_base128_continued_len(n / 128);
    }
}

proof fn lemma_base128_all_len(arcs: Seq<u64>)
    requires
        forall|i: int| 0 <= i < arcs.len() ==> #[trigger] arcs[i] < 0x1_0000_0000,
    ensures
        base128_all(arcs).len() <= 6 * arcs.len(),
    decreases arcs.len(),
{
    if arcs.len() > 0 {
        let init = arcs.drop_last();
        assert forall|i: int| 0 <= i < init.len() implies #[trigger] init[i] < 0x1_0000_0000 by {
            assert(init[i] == arcs[i]);
        }
        lemma_base128_all_len(init);
        assert(arcs.last() == arcs[arcs.len() - 1]);
        lemma_base128_len(arcs.last() as nat);
    }
}

fn base128_continued_of(n: u64) -> (r: Vec<u8>)
    requires
        n < 0x1_0000_0000,
    ensures
        r@ == base128_continued(n as nat),
    decreases n,
{
    if n < 128 {
        vec![(n + 128) as u8]
    } else {
        let mut r = base128_continued_of(n / 128);
        r.push((n % 128 + 128) as u8);
        r
    }
}

fn base128_of(n: u64) -> (r: Vec<u8>)
    requires
        n < 0x2_0000_0000,
    ensures
        r@ == base128(n as nat),
{
    if n < 128 {
        vec![n as u8]
    } else {
        let mut r = base128_continued_of(n / 128);
        r.push((n % 128) as u8);
        r
    }
}

/// The OBJECT IDENTIFIER element for `arcs`.
pub fn encode_object_identifier(arcs: &Vec<u64>) -> (r: Vec<u8>)
    requires
        arcs_well_formed(arcs@),
    ensures
        r@ == der_object_identifier(arcs@),
        r@.len() <= 6 * arcs@.len() + 10,
{
    let ghost rest = arcs@.subrange(2, arcs@.len() as int);
    let mut content = base128_of(40 * arcs[0] + arcs[1]);
    proof {
        lemma_base128_len(first_subidentifier(arcs@));
    }
    let mut i: usize = 2;
    while i < arcs.len()
        invariant
            arcs_well_formed(arcs@),
            rest == arcs@.subrange(2, arcs@.len() as int),
            2 <= i <= arcs@.len(),
            content@ == base128(first_subidentifier(arcs@)) + base128_all(
                arcs@.subrange(2, i as int),
            ),
            content@.len() <= 6 * i,
        decreases arcs@.len() - i,
    {
        proof {
            let s = arcs@.subrange(2, i as int + 1);
            assert(s.drop_last() =~= arcs@.subrange(2, i as int));
            assert(s.last() == arcs@[i as int]);
            lemma_base128_len(arcs@[i as int] as nat);
        }
        let mut d = base128_of(arcs[i]);
        content.append(&mut d);
        i = i + 1;
        proof {
            assert(content@ =~= base128(first_subidentifier(arcs@)) + base128_all(
                arcs@.subrange(2, i as int),
            ));
        }
    }
    assert(arcs@.subrange(2, i as int) =~= rest);
    encode_tlv(TAG_OBJECT_IDENTIFIER, &content)
}

/// The INTEGER element whose unsigned big-endian value is `bytes`.
pub fn encode_unsigned_integer(bytes: &[u8]) -> (r: Vec<u8>)
    requires
        bytes@.len() < MAX_CONTENT_LEN,
    ensures
        r@ == der_unsigned_integer(bytes@),
        r@.len() <= bytes@.len() + 11,
{
    let mut i: usize = 0;
    assert(bytes@.subrange(0, bytes@.len() as int) =~= bytes@);
    while i < bytes.len() && bytes[i] == 0
        invariant
            0 <= i <= bytes@.len(),
            strip_leading_zeros(bytes@) == strip_leading_zeros(
                bytes@.subrange(i as int, bytes@.len() as int),
            ),
        decreases bytes@.len() - i,
    {
        proof {
            let t = bytes@.subrange(i as int, bytes@.len() as int);
            assert(t.drop_first() =~= bytes@.subrange(i as int + 1, bytes@.len() as int));
        }
        i = i + 1;
    }
    let ghost t = bytes@.subrange(i as int, bytes@.len() as int);
    assert(strip_leading_zeros(t) == t);
    let mut content: Vec<u8> = Vec::new();
    if i == bytes.len() || bytes[i] >= 0x80 {
        content.push(0);
    }
    let mut j: usize = i;
    while j < bytes.len()
        invariant
            i <= j <= bytes@.len(),
            t == bytes@.subrange(i as int, bytes@.len() as int),
            content@.len() >= 1 || (i < bytes@.len() && bytes@[i as int] < 0x80),
            content@.len() <= j - i + 1,
            content@ == (if i == bytes@.len() || bytes@[i as int] >= 0x80 {
                seq![0u8]
            } else {
                Seq::empty()
            }) + bytes@.subrange(i as int, j as int),
        decreases bytes@.len() - j,
    {
        content.push(bytes[j]);
        j = j + 1;
        assert(content@ =~= (if i == bytes@.len() || bytes@[i as int] >= 0x80 {
            seq![0u8]
        } else {
            Seq::empty()
        }) + bytes@.subrange(i as int, j as int));
    }
    assert(content@ =~= unsigned_integer_content(bytes@));
    encode_tlv(TAG_INTEGER, &content)
}

/// The NULL element.
pub fn encode_null() -> (r: Vec<u8>)
    ensures
        r@ == der_null(),
{
    let empty: Vec<u8> = Vec::new();
    encode_tlv(TAG_NULL, &empty)
}

/// The BIT STRING element holding `bits`, with `unused_bits` padding bits in
/// its last byte.
pub fn encode_bit_string(bits: &[u8], unused_bits: u8) -> (r: Vec<u8>)
    requires
        bits@.len() < MAX_CONTENT_LEN,
    ensures
        r@ == der_bit_string(bits@, unused_bits),
        r@.len() <= bits@.len() + 11,
{
    let mut content: Vec<u8> = vec![unused_bits];
    let mut tail = slice_to_vec(bits);
    content.append(&mut tail);
    encode_tlv(TAG_BIT_STRING, &content)
}

/// The OCTET STRING element holding `bytes`.
pub fn encode_octet_string(bytes: &[u8]) -> (r: Vec<u8>)
    requires
        bytes@.len() <= MAX_CONTENT_LEN,
    ensures
        r@ == der_octet_string(bytes@),
        r@.len() <= bytes@.len() + 10,
{
    let content = slice_to_vec(bytes);
    encode_tlv(TAG_OCTET_STRING, &content)
}

/// The SEQUENCE element around `content`, the elements already encoded.
pub fn encode_sequence(content: &Vec<u8>) -> (r: Vec<u8>)
    requires
        content@.len() <= MAX_CONTENT_LEN,
    ensures
        r@ == der_sequence(content@),
        r@.len() <= content@.len() + 10,
{
    encode_tlv(TAG_SEQUENCE, content)
}

/// The constructed context-specific element `[n]` around `content`.
pub fn encode_context(n: u8, content: &Vec<u8>) -> (r: Vec<u8>)
    requires
        n < 31,
        content@.len() <= MAX_CONTENT_LEN,
    ensures
        r@ == der_context(n, content@),
        r@.len() <= content@.len() + 10,
{
    encode_tlv(TAG_CONTEXT_SPECIFIC + n, content)
}

/// A copy of `s` in a vector.
pub fn slice_to_vec(s: &[u8]) -> (r: Vec<u8>)
    ensures
        r@ == s@,
{
    let mut r: Vec<u8> = Vec::new();
    let mut i: usize = 0;
    while i < s.len()
        invariant
            i <= s@.len(),
            r@ == s@.subrange(0, i as int),
        decreases s@.len() - i,
    {
        r.push(s[i]);
        i = i + 1;
        assert(r@ =~= s@.subrange(0, i as int));
    }
    assert(r@ =~= s@);
    r
}

} // verus!
