//! Fixed-size byte strings: equality and lexicographic order, the order in
//! which ordered sets and maps of 32-byte keys hold their elements.

use vstd::prelude::*;

verus! {

/// Lexicographic "strictly less" on byte sequences: `a` and `b` agree on a
/// prefix and `a` holds the smaller byte at the first position where they
/// differ.
pub open spec fn lex_lt(a: Seq<u8>, b: Seq<u8>) -> bool {
    exists|i: int| #[trigger] lex_lt_at(a, b, i)
}

/// `a` and `b` first differ at position `i`, where `a` is smaller.
pub open spec fn lex_lt_at(a: Seq<u8>, b: Seq<u8>, i: int) -> bool {
    &&& 0 <= i < a.len()
    &&& i < b.len()
    &&& a[i] < b[i]
    &&& forall|j: int| 0 <= j < i ==> #[trigger] a[j] == b[j]
}

/// The outcome of comparing two byte strings.
#[derive(Clone, Copy, Debug, PartialEq, Eq, Structural)]
pub enum ByteOrder {
    Less,
    Equal,
    Greater,
}

/// No byte string is smaller than itself.
pub proof fn lemma_lex_lt_irreflexive(a: Seq<u8>)
    ensures
        !lex_lt(a, a),
{
}

/// Lexicographic order is transitive.
pub proof fn lemma_lex_lt_transitive(a: Seq<u8>, b: Seq<u8>, c: Seq<u8>)
    requires
        lex_lt(a, b),
        lex_lt(b, c),
    ensures
        lex_lt(a, c),
{
    let i = choose|i: int| lex_lt_at(a, b, i);
    let k = choose|k: int| lex_lt_at(b, c, k);
    if i < k {
        assert(lex_lt_at(a, c, i));
    } else if k < i {
        assert(lex_lt_at(a, c, k));
    } else {
        assert(lex_lt_at(a, c, i));
    }
}

/// Lexicographic order is asymmetric.
pub proof fn lemma_lex_lt_asymmetric(a: Seq<u8>, b: Seq<u8>)
    requires
        lex_lt(a, b),
    ensures
        !lex_lt(b, a),
{
    if lex_lt(b, a) {
        lemma_lex_lt_transitive(a, b, a);
    }
}

/// Two byte strings of the same length are equal or ordered one way or
/// the other.
pub proof fn lemma_lex_lt_total(a: Seq<u8>, b: Seq<u8>)
    requires
        a.len() == b.len(),
        a != b,
    ensures
        lex_lt(a, b) || lex_lt(b, a),
{
    if forall|j: int| 0 <= j < a.len() ==> a[j] == b[j] {
        assert(a =~= b);
    } else {
        let d = choose|d: int| 0 <= d < a.len() && a[d] != b[d];
        lemma_first_difference(a, b, d);
    }
}

proof fn lemma_first_difference(a: Seq<u8>, b: Seq<u8>, d: int)
    requires
        a.len() == b.len(),
        0 <= d < a.len(),
        a[d] != b[d],
    ensures
        lex_lt(a, b) || lex_lt(b, a),
    decreases d,
{
    if exists|e: int| 0 <= e < d && a[e] != b[e] {
        let e = choose|e: int| 0 <= e < d && a[e] != b[e];
        lemma_first_difference(a, b, e);
    } else {
        if a[d] < b[d] {
            assert(lex_lt_at(a, b, d));
        } else {
            assert(lex_lt_at(b, a, d));
        }
    }
}

/// Compares two 32-byte strings for equality.
pub fn bytes32_eq(a: &[u8; 32], b: &[u8; 32]) -> (r: bool)
    ensures
        r == (*a == *b),
{
    let mut i: usize = 0;
    while i < 32
        invariant
            0 <= i <= 32,
            forall|j: int| 0 <= j < i ==> a@[j] == b@[j],
        decreases 32 - i,
    {
        if a[i] != b[i] {
            assert(a@[i as int] != b@[i as int]);
            return false;
        }
        i = i + 1;
    }
    assert(*a =~= *b);
    true
}

/// Compares two 32-byte strings lexicographically.
pub fn compare_bytes32(a: &[u8; 32], b: &[u8; 32]) -> (r: ByteOrder)
    ensures
        r == ByteOrder::Less <==> lex_lt(a@, b@),
        r == ByteOrder::Equal <==> *a == *b,
        r == ByteOrder::Greater <==> lex_lt(b@, a@),
{
    let mut i: usize = 0;
    while i < 32
        invariant
            0 <= i <= 32,
            forall|j: int| 0 <= j < i ==> a@[j] == b@[j],
        decreases 32 - i,
    {
        if a[i] < b[i] {
            assert(lex_lt_at(a@, b@, i as int));
            proof {
                lemma_lex_lt_asymmetric(a@, b@);
            }
            assert(a@[i as int] != b@[i as int]);
            return ByteOrder::Less;
        }
        if a[i] > b[i] {
            assert(lex_lt_at(b@, a@, i as int));
            proof {
                lemma_lex_lt_asymmetric(b@, a@);
            }
            assert(a@[i as int] != b@[i as int]);
            return ByteOrder::Greater;
        }
        i = i + 1;
    }
    assert(*a =~= *b);
    proof {
        lemma_lex_lt_irreflexive(a@);
    }
    ByteOrder::Equal
}

} // verus!
