//! The order of chunk types: that of their bytes, read from the first to
//! the last.

use crate::chunk_type::chunk::ChunkType;
use std::cmp::Ordering;
use vstd::prelude::*;
use vstd::std_specs::cmp::{PartialEqSpec, PartialOrdSpec};

verus! {

/// `a` comes before `b` in the order of byte sequences: at the first
/// position where the two differ, `a` holds the smaller byte.
pub open spec fn bytes_before(a: Seq<u8>, b: Seq<u8>) -> bool {
    exists|k: int|
        0 <= k < a.len() && k < b.len() && a[k] < b[k] && (forall|j: int|
            0 <= j < k ==> a[j] == b[j])
}

/// How `a` stands to `b` in the order of byte sequences.
pub open spec fn compare_bytes(a: Seq<u8>, b: Seq<u8>) -> Ordering {
    if a == b {
        Ordering::Equal
    } else if bytes_before(a, b) {
        Ordering::Less
    } else {
        Ordering::Greater
    }
}

impl vstd::std_specs::cmp::PartialOrdSpecImpl for ChunkType {
    open spec fn obeys_partial_cmp_spec() -> bool {
        true
    }

    /// Any two chunk types are comparable, by their bytes.
    open spec fn partial_cmp_spec(&self, other: &ChunkType) -> Option<Ordering> {
        Some(compare_bytes(self@, other@))
    }
}

impl PartialOrd for ChunkType {
    /// Compares byte by byte and decides at the first difference.
    fn partial_cmp(&self, other: &ChunkType) -> (r: Option<Ordering>) {
        let a = self.bytes();
        let b = other.bytes();
        let mut i: usize = 0;
        while i < 4
            invariant
                i <= 4,
                a@ == self@,
                b@ == other@,
                forall|j: int| 0 <= j < i ==> a@[j] == b@[j],
            decreases 4 - i,
        {
            if a[i] < b[i] {
                return Some(Ordering::Less);
            }
            if a[i] > b[i] {
                proof {
                    lemma_before_is_one_way(b@, a@);
                }
                return Some(Ordering::Greater);
            }
            i = i + 1;
        }
        assert(a@ =~= b@);
        Some(Ordering::Equal)
    }
}

/// Of two sequences of one length, if one comes before the other, then
/// they differ and the other does not come before the one.
pub proof fn lemma_before_is_one_way(a: Seq<u8>, b: Seq<u8>)
    requires
        bytes_before(a, b),
    ensures
        a != b,
        !bytes_before(b, a),
{
    let k = choose|k: int|
        0 <= k < a.len() && k < b.len() && a[k] < b[k] && (forall|j: int|
            0 <= j < k ==> a[j] == b[j]);
    if bytes_before(b, a) {
        let m = choose|m: int|
            0 <= m < b.len() && m < a.len() && b[m] < a[m] && (forall|j: int|
                0 <= j < m ==> b[j] == a[j]);
        if m < k {
            assert(a[m] == b[m]);
        } else if k < m {
            assert(b[k] == a[k]);
        }
    }
}

/// Two sequences of one length are equal, or one of them comes before the
/// other.
pub proof fn lemma_differing_bytes_are_ordered(a: Seq<u8>, b: Seq<u8>)
    requires
        a.len() == b.len(),
        a != b,
    ensures
        bytes_before(a, b) || bytes_before(b, a),
    decreases a.len(),
{
    if a.len() == 0 {
        assert(a =~= b);
    } else if a[0] < b[0] {
        assert(bytes_before(a, b));
    } else if b[0] < a[0] {
        assert(bytes_before(b, a));
    } else {
        let x = a.drop_first();
        let y = b.drop_first();
        if x == y {
            assert forall|i: int| 0 <= i < a.len() implies a[i] == b[i] by {
                if i > 0 {
                    assert(a[i] == x[i - 1] && b[i] == y[i - 1]);
                }
            }
            assert(a =~= b);
        }
        lemma_differing_bytes_are_ordered(x, y);
        if bytes_before(x, y) {
            let k = choose|k: int|
                0 <= k < x.len() && k < y.len() && x[k] < y[k] && (forall|j: int|
                    0 <= j < k ==> x[j] == y[j]);
            assert forall|j: int| 0 <= j < k + 1 implies a[j] == b[j] by {
                if j > 0 {
                    assert(x[j - 1] == y[j - 1]);
                }
            }
            assert(a[k + 1] == x[k] && b[k + 1] == y[k]);
            assert(bytes_before(a, b));
        } else {
            let k = choose|k: int|
                0 <= k < y.len() && k < x.len() && y[k] < x[k] && (forall|j: int|
                    0 <= j < k ==> y[j] == x[j]);
            assert forall|j: int| 0 <= j < k + 1 implies b[j] == a[j] by {
                if j > 0 {
                    assert(y[j - 1] == x[j - 1]);
                }
            }
            assert(b[k + 1] == y[k] && a[k + 1] == x[k]);
            assert(bytes_before(b, a));
        }
    }
}

/// Coming before is transitive.
pub proof fn lemma_before_is_transitive(a: Seq<u8>, b: Seq<u8>, c: Seq<u8>)
    requires
        bytes_before(a, b),
        bytes_before(b, c),
    ensures
        bytes_before(a, c),
{
    let k = choose|k: int|
        0 <= k < a.len() && k < b.len() && a[k] < b[k] && (forall|j: int|
            0 <= j < k ==> a[j] == b[j]);
    let m = choose|m: int|
        0 <= m < b.len() && m < c.len() && b[m] < c[m] && (forall|j: int|
            0 <= j < m ==> b[j] == c[j]);
    let n = if k <= m {
        k
    } else {
        m
    };
    assert(a[n] < c[n]) by {
        if k < m {
            assert(b[k] == c[k]);
        } else if m < k {
            assert(a[m] == b[m]);
        }
    }
    assert forall|j: int| 0 <= j < n implies a[j] == c[j] by {
        assert(a[j] == b[j]);
        assert(b[j] == c[j]);
    }
    assert(bytes_before(a, c));
}

/// The order of chunk types is total and agrees with their equality: two
/// chunk types compare equal exactly when they are equal, and one is less
/// than the other exactly when the other is greater than the one.
pub proof fn lemma_order_is_total(a: ChunkType, b: ChunkType)
    ensures
        a.partial_cmp_spec(&b) == Some(Ordering::Equal) <==> a.eq_spec(&b),
        a.partial_cmp_spec(&b) == Some(Ordering::Less) <==> b.partial_cmp_spec(&a) == Some(
            Ordering::Greater,
        ),
{
    if a@ != b@ {
        lemma_differing_bytes_are_ordered(a@, b@);
        if bytes_before(a@, b@) {
            lemma_before_is_one_way(a@, b@);
        } else {
            lemma_before_is_one_way(b@, a@);
        }
    }
}

/// The order of chunk types is transitive.
pub proof fn lemma_order_is_transitive(a: ChunkType, b: ChunkType, c: ChunkType)
    requires
        a.partial_cmp_spec(&b) == Some(Ordering::Less),
        b.partial_cmp_spec(&c) == Some(Ordering::Less),
    ensures
        a.partial_cmp_spec(&c) == Some(Ordering::Less),
{
    lemma_before_is_transitive(a@, b@, c@);
    lemma_before_is_one_way(a@, c@);
}

} // verus!
