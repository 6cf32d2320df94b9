//! Sorted-pair Merkle verification.
//!
//! A burn proof carries the sibling hashes from the burn record's leaf up to
//! the claimed state root. At every level the parent is the Keccak-256 digest
//! of the two children in lexicographic order, so a proof needs no
//! left/right position bits and recomputation is deterministic.

use vstd::prelude::*;
use crate::byteseq::append_bytes;
use crate::hashes::{keccak256, keccak256_of};

verus! {

/// Lexicographic order on byte strings.
pub open spec fn lex_le(a: Seq<u8>, b: Seq<u8>) -> bool
    decreases a.len(),
{
    if a.len() == 0 {
        true
    } else if b.len() == 0 {
        false
    } else if a[0] < b[0] {
        true
    } else if a[0] > b[0] {
        false
    } else {
        lex_le(a.drop_first(), b.drop_first())
    }
}

/// Lexicographic order is total.
pub proof fn lemma_lex_total(a: Seq<u8>, b: Seq<u8>)
    ensures
        lex_le(a, b) || lex_le(b, a),
    decreases a.len(),
{
    if a.len() != 0 && b.len() != 0 && a[0] == b[0] {
        lemma_lex_total(a.drop_first(), b.drop_first());
    }
}

/// Two equal-length strings ordered both ways are equal.
pub proof fn lemma_lex_antisymmetric(a: Seq<u8>, b: Seq<u8>)
    requires
        a.len() == b.len(),
        lex_le(a, b),
        lex_le(b, a),
    ensures
        a == b,
    decreases a.len(),
{
    if a.len() != 0 {
        lemma_lex_antisymmetric(a.drop_first(), b.drop_first());
        assert(a =~= seq![a[0]] + a.drop_first());
        assert(b =~= seq![b[0]] + b.drop_first());
    }
}

/// The parent of two sibling hashes: the digest of the pair in
/// lexicographic order.
pub open spec fn merkle_parent(a: Seq<u8>, b: Seq<u8>) -> Seq<u8> {
    if lex_le(a, b) {
        keccak256_of(a + b)
    } else {
        keccak256_of(b + a)
    }
}

/// Which of the two children comes first does not matter: the sorted pair is
/// hashed either way. For a two-leaf tree with leaves A and B this makes the
/// root `hash(A || B)` (with A the smaller leaf) no matter which leaf the
/// proof path presents first.
pub proof fn lemma_merkle_parent_order_independent(a: Seq<u8>, b: Seq<u8>)
    requires
        a.len() == b.len(),
    ensures
        merkle_parent(a, b) == merkle_parent(b, a),
{
    lemma_lex_total(a, b);
    if lex_le(a, b) && lex_le(b, a) {
        lemma_lex_antisymmetric(a, b);
    }
}

/// The root reached from `leaf` by folding in each sibling, bottom up.
pub open spec fn merkle_root_from(leaf: Seq<u8>, siblings: Seq<Seq<u8>>) -> Seq<u8>
    decreases siblings.len(),
{
    if siblings.len() == 0 {
        leaf
    } else {
        merkle_root_from(merkle_parent(leaf, siblings[0]), siblings.drop_first())
    }
}

/// Whether `a` lexicographically precedes or equals `b`.
pub fn lex_le_bytes(a: &Vec<u8>, b: &Vec<u8>) -> (r: bool)
    requires
        a@.len() == b@.len(),
    ensures
        r == lex_le(a@, b@),
{
    let n = a.len();
    assert(a@.skip(0) =~= a@);
    assert(b@.skip(0) =~= b@);
    for i in 0..n
        invariant
            n == a@.len() == b@.len(),
            lex_le(a@, b@) == lex_le(a@.skip(i as int), b@.skip(i as int)),
            lex_le(b@, a@) == lex_le(b@.skip(i as int), a@.skip(i as int)),
    {
        proof {
            assert(a@.skip(i as int)[0] == a@[i as int]);
            assert(b@.skip(i as int)[0] == b@[i as int]);
        }
        if a[i] < b[i] {
            return true;
        }
        if a[i] > b[i] {
            return false;
        }
        proof {
            assert(a@.skip(i as int).drop_first() =~= a@.skip(i as int + 1));
            assert(b@.skip(i as int).drop_first() =~= b@.skip(i as int + 1));
        }
    }
    assert(a@.skip(n as int) =~= Seq::<u8>::empty());
    true
}

/// Hash two sibling hashes into their parent, smaller first.
pub fn hash_sorted_pair(a: &Vec<u8>, b: &Vec<u8>) -> (r: Vec<u8>)
    requires
        a@.len() == 32,
        b@.len() == 32,
    ensures
        r@ == merkle_parent(a@, b@),
        r@.len() == 32,
{
    let mut buf: Vec<u8> = Vec::new();
    if lex_le_bytes(a, b) {
        append_bytes(&mut buf, a);
        append_bytes(&mut buf, b);
        assert(buf@ =~= a@ + b@);
    } else {
        append_bytes(&mut buf, b);
        append_bytes(&mut buf, a);
        assert(buf@ =~= b@ + a@);
    }
    keccak256(buf.as_slice())
}

/// Recompute the Merkle root from a leaf hash and its sibling path.
pub fn compute_merkle_root(leaf: &Vec<u8>, siblings: &Vec<Vec<u8>>) -> (r: Vec<u8>)
    requires
        leaf@.len() == 32,
        forall|i: int| 0 <= i < siblings@.len() ==> (#[trigger] siblings@[i])@.len() == 32,
    ensures
        r@ == merkle_root_from(leaf@, siblings.deep_view()),
        r@.len() == 32,
{
    let ghost sibs: Seq<Seq<u8>> = siblings.deep_view();
    proof {
        assert(forall|j: int|
            0 <= j < siblings@.len() ==> sibs[j] == (#[trigger] siblings@[j])@);
        assert(sibs.skip(0) =~= sibs);
    }
    let mut current = crate::byteseq::copy_bytes(leaf);
    let n = siblings.len();
    for i in 0..n
        invariant
            n == siblings@.len() == sibs.len(),
            current@.len() == 32,
            forall|j: int| 0 <= j < siblings@.len() ==> sibs[j] == (#[trigger] siblings@[j])@,
            forall|j: int| 0 <= j < siblings@.len() ==> (#[trigger] siblings@[j])@.len() == 32,
            merkle_root_from(current@, sibs.skip(i as int)) == merkle_root_from(leaf@, sibs),
    {
        proof {
            assert(sibs.skip(i as int)[0] == sibs[i as int]);
            assert(sibs.skip(i as int).drop_first() =~= sibs.skip(i as int + 1));
        }
        current = hash_sorted_pair(&current, &siblings[i]);
    }
    proof {
        assert(sibs.skip(n as int) =~= Seq::<Seq<u8>>::empty());
    }
    current
}

} // verus!
