//! 256-bit identifiers, ordered as big-endian byte strings.

use vstd::prelude::*;
use std::cmp::Ordering;

verus! {

/// Lexicographic order of two byte strings.
pub open spec fn lex_cmp(a: Seq<u8>, b: Seq<u8>) -> Ordering
    decreases a.len(),
{
    if a.len() == 0 || b.len() == 0 {
        if a.len() == b.len() {
            Ordering::Equal
        } else if a.len() == 0 {
            Ordering::Less
        } else {
            Ordering::Greater
        }
    } else if a[0] < b[0] {
        Ordering::Less
    } else if a[0] > b[0] {
        Ordering::Greater
    } else {
        lex_cmp(a.drop_first(), b.drop_first())
    }
}

/// Byte strings compare equal exactly when they are equal.
pub proof fn lemma_lex_cmp_equal(a: Seq<u8>, b: Seq<u8>)
    ensures
        (lex_cmp(a, b) == Ordering::Equal) <==> (a == b),
    decreases a.len(),
{
    if a.len() > 0 && b.len() > 0 {
        lemma_lex_cmp_equal(a.drop_first(), b.drop_first());
        if a[0] == b[0] && a.drop_first() == b.drop_first() {
            assert(a =~= seq![a[0]] + a.drop_first());
            assert(b =~= seq![b[0]] + b.drop_first());
        }
    } else if a.len() == 0 && b.len() == 0 {
        assert(a =~= b);
    }
}

/// Swapping the operands reverses the order.
pub proof fn lemma_lex_cmp_antisymmetric(a: Seq<u8>, b: Seq<u8>)
    ensures
        (lex_cmp(a, b) == Ordering::Less) <==> (lex_cmp(b, a) == Ordering::Greater),
    decreases a.len(),
{
    if a.len() > 0 && b.len() > 0 {
        lemma_lex_cmp_antisymmetric(a.drop_first(), b.drop_first());
    }
}

/// The order is transitive.
pub proof fn lemma_lex_cmp_transitive(a: Seq<u8>, b: Seq<u8>, c: Seq<u8>)
    requires
        lex_cmp(a, b) == Ordering::Less,
        lex_cmp(b, c) == Ordering::Less,
    ensures
        lex_cmp(a, c) == Ordering::Less,
    decreases a.len(),
{
    if a.len() > 0 && b.len() > 0 && c.len() > 0 && a[0] == b[0] && b[0] == c[0] {
        lemma_lex_cmp_transitive(a.drop_first(), b.drop_first(), c.drop_first());
    }
}

/// A 256-bit identifier.
#[derive(Clone, Copy, Debug, PartialEq, Eq, Hash)]
pub struct H256 {
    bytes: [u8; 32],
}

impl H256 {
    /// The identifier's bytes, most significant first.
    pub closed spec fn view_bytes(&self) -> Seq<u8> {
        self.bytes@
    }

    /// Identifiers with the same bytes are the same identifier.
    pub proof fn lemma_view_bytes_injective(a: H256, b: H256)
        requires
            a.view_bytes() == b.view_bytes(),
        ensures
            a == b,
    {
        assert(a.bytes == b.bytes);
    }

    /// The identifier with the given bytes, most significant first.
    pub fn from_bytes(bytes: [u8; 32]) -> (r: H256)
        ensures
            r.view_bytes() == bytes@,
    {
        H256 { bytes }
    }

    /// The identifier's bytes, most significant first.
    pub fn as_bytes(&self) -> (r: [u8; 32])
        ensures
            r@ == self.view_bytes(),
    {
        self.bytes
    }

    /// Compares two identifiers as big-endian numbers.
    pub fn compare(&self, other: &H256) -> (r: Ordering)
        ensures
            r == lex_cmp(self.view_bytes(), other.view_bytes()),
    {
        let mut i: usize = 0;
        assert(self.bytes@.skip(0) =~= self.bytes@);
        assert(other.bytes@.skip(0) =~= other.bytes@);
        while i < 32
            invariant
                i <= 32,
                self.bytes@.len() == 32,
                other.bytes@.len() == 32,
                lex_cmp(self.bytes@, other.bytes@) == lex_cmp(
                    self.bytes@.skip(i as int),
                    other.bytes@.skip(i as int),
                ),
            decreases 32 - i,
        {
            let x = self.bytes[i];
            let y = other.bytes[i];
            if x < y {
                return Ordering::Less;
            }
            if x > y {
                return Ordering::Greater;
            }
            assert(self.bytes@.skip(i as int).drop_first() =~= self.bytes@.skip(i + 1));
            assert(other.bytes@.skip(i as int).drop_first() =~= other.bytes@.skip(i + 1));
            i = i + 1;
        }
        Ordering::Equal
    }
}

} // verus!
