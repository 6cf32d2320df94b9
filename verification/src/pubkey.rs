//! Identities of validators and users.
//!
//! A public key on the ledger is an opaque 32-byte value. The protocol only
//! ever compares keys for equality and serialises them into signed messages,
//! so the crate models a key as four 64-bit words whose little-endian
//! concatenation is the key's 32-byte wire form.

use vstd::prelude::*;
use vstd::bytes::{lemma_auto_spec_u64_to_from_le_bytes, spec_u64_to_le_bytes, u64_to_le_bytes};

verus! {

/// A 32-byte public key, stored as four 64-bit words.
#[derive(Clone, Copy, PartialEq, Eq, Structural, Debug)]
pub struct Pubkey {
    pub w0: u64,
    pub w1: u64,
    pub w2: u64,
    pub w3: u64,
}

/// The 32-byte wire form of a key: the little-endian bytes of its four words.
pub open spec fn pubkey_bytes(pk: Pubkey) -> Seq<u8> {
    spec_u64_to_le_bytes(pk.w0) + spec_u64_to_le_bytes(pk.w1) + spec_u64_to_le_bytes(pk.w2)
        + spec_u64_to_le_bytes(pk.w3)
}

impl Pubkey {
    /// Serialise the key into its 32-byte wire form.
    pub fn to_bytes(&self) -> (r: Vec<u8>)
        ensures
            r@ == pubkey_bytes(*self),
            r@.len() == 32,
    {
        proof {
            lemma_auto_spec_u64_to_from_le_bytes();
        }
        let mut r = u64_to_le_bytes(self.w0);
        let mut b1 = u64_to_le_bytes(self.w1);
        let mut b2 = u64_to_le_bytes(self.w2);
        let mut b3 = u64_to_le_bytes(self.w3);
        r.append(&mut b1);
        r.append(&mut b2);
        r.append(&mut b3);
        r
    }
}

/// The key whose 32-byte wire form is `s`.
pub open spec fn spec_pubkey_from_bytes(s: Seq<u8>) -> Pubkey {
    Pubkey {
        w0: vstd::bytes::spec_u64_from_le_bytes(s.subrange(0, 8)),
        w1: vstd::bytes::spec_u64_from_le_bytes(s.subrange(8, 16)),
        w2: vstd::bytes::spec_u64_from_le_bytes(s.subrange(16, 24)),
        w3: vstd::bytes::spec_u64_from_le_bytes(s.subrange(24, 32)),
    }
}

/// Serialising the key read from 32 bytes gives those bytes back, and
/// reading back a serialised key gives the key.
pub proof fn lemma_pubkey_bytes_roundtrip(s: Seq<u8>)
    requires
        s.len() == 32,
    ensures
        pubkey_bytes(spec_pubkey_from_bytes(s)) == s,
        forall|pk: Pubkey| #[trigger] spec_pubkey_from_bytes(pubkey_bytes(pk)) == pk,
{
    lemma_auto_spec_u64_to_from_le_bytes();
    assert(pubkey_bytes(spec_pubkey_from_bytes(s)) =~= s);
    assert forall|pk: Pubkey| #[trigger] spec_pubkey_from_bytes(pubkey_bytes(pk)) == pk by {
        assert(pubkey_bytes(pk).subrange(0, 8) =~= spec_u64_to_le_bytes(pk.w0));
        assert(pubkey_bytes(pk).subrange(8, 16) =~= spec_u64_to_le_bytes(pk.w1));
        assert(pubkey_bytes(pk).subrange(16, 24) =~= spec_u64_to_le_bytes(pk.w2));
        assert(pubkey_bytes(pk).subrange(24, 32) =~= spec_u64_to_le_bytes(pk.w3));
    }
}

/// Deserialise a key from its 32-byte wire form.
pub fn pubkey_from_bytes(bytes: &Vec<u8>) -> (r: Pubkey)
    requires
        bytes@.len() == 32,
    ensures
        pubkey_bytes(r) == bytes@,
{
    proof {
        lemma_auto_spec_u64_to_from_le_bytes();
    }
    let b0 = crate::byteseq::copy_range(bytes, 0, 8);
    let b1 = crate::byteseq::copy_range(bytes, 8, 16);
    let b2 = crate::byteseq::copy_range(bytes, 16, 24);
    let b3 = crate::byteseq::copy_range(bytes, 24, 32);
    let r = Pubkey {
        w0: vstd::bytes::u64_from_le_bytes(b0.as_slice()),
        w1: vstd::bytes::u64_from_le_bytes(b1.as_slice()),
        w2: vstd::bytes::u64_from_le_bytes(b2.as_slice()),
        w3: vstd::bytes::u64_from_le_bytes(b3.as_slice()),
    };
    proof {
        assert(pubkey_bytes(r) =~= bytes@);
    }
    r
}

/// Copy a list of keys.
pub fn copy_pubkeys(src: &Vec<Pubkey>) -> (r: Vec<Pubkey>)
    ensures
        r@ == src@,
{
    let mut r: Vec<Pubkey> = Vec::new();
    let n = src.len();
    for i in 0..n
        invariant
            n == src@.len(),
            r@ == src@.take(i as int),
    {
        r.push(src[i]);
        assert(r@ =~= src@.take(i as int + 1));
    }
    assert(src@.take(n as int) =~= src@);
    r
}

/// Two distinct keys have distinct wire forms: serialisation loses nothing.
pub proof fn lemma_pubkey_bytes_injective(a: Pubkey, b: Pubkey)
    ensures
        pubkey_bytes(a) == pubkey_bytes(b) ==> a == b,
{
    lemma_auto_spec_u64_to_from_le_bytes();
    if pubkey_bytes(a) == pubkey_bytes(b) {
        assert(spec_u64_to_le_bytes(a.w0) =~= pubkey_bytes(a).subrange(0, 8));
        assert(spec_u64_to_le_bytes(a.w1) =~= pubkey_bytes(a).subrange(8, 16));
        assert(spec_u64_to_le_bytes(a.w2) =~= pubkey_bytes(a).subrange(16, 24));
        assert(spec_u64_to_le_bytes(a.w3) =~= pubkey_bytes(a).subrange(24, 32));
        assert(spec_u64_to_le_bytes(b.w0) =~= pubkey_bytes(b).subrange(0, 8));
        assert(spec_u64_to_le_bytes(b.w1) =~= pubkey_bytes(b).subrange(8, 16));
        assert(spec_u64_to_le_bytes(b.w2) =~= pubkey_bytes(b).subrange(16, 24));
        assert(spec_u64_to_le_bytes(b.w3) =~= pubkey_bytes(b).subrange(24, 32));
        assert(vstd::bytes::spec_u64_from_le_bytes(spec_u64_to_le_bytes(a.w0)) == a.w0);
        assert(vstd::bytes::spec_u64_from_le_bytes(spec_u64_to_le_bytes(b.w0)) == b.w0);
        assert(a.w0 == b.w0 && a.w1 == b.w1 && a.w2 == b.w2 && a.w3 == b.w3);
    }
}

} // verus!
