//! Lexicographic order on byte strings, the order in which chain ids are kept.
use vstd::prelude::*;

verus! {

/// `a` is below `b`, and the first `i` bytes of the two agree.
pub open spec fn below_at(a: Seq<u8>, b: Seq<u8>, i: int) -> bool {
    &&& 0 <= i <= a.len()
    &&& i <= b.len()
    &&& forall|k: int| 0 <= k < i ==> a[k] == b[k]
    &&& (i == a.len() && i < b.len()) || (i < a.len() && i < b.len() && a[i] < b[i])
}

/// `a` comes strictly before `b`: it is a proper prefix of `b`, or it has the
/// smaller byte where the two first differ.
pub open spec fn bytes_lt(a: Seq<u8>, b: Seq<u8>) -> bool {
    exists|i: int| below_at(a, b, i)
}

pub proof fn lemma_bytes_lt_irreflexive(a: Seq<u8>)
    ensures
        !bytes_lt(a, a),
{
}

pub proof fn lemma_bytes_lt_transitive(a: Seq<u8>, b: Seq<u8>, c: Seq<u8>)
    requires
        bytes_lt(a, b),
        bytes_lt(b, c),
    ensures
        bytes_lt(a, c),
{
    let i = choose|i: int| below_at(a, b, i);
    let j = choose|j: int| below_at(b, c, j);
    if i <= j {
        assert(below_at(a, c, i));
    } else {
        assert(below_at(a, c, j));
    }
}

/// Compares two byte strings: negative, zero or positive as `a` comes before,
/// equals or comes after `b`.
pub fn compare_bytes(a: &[u8], b: &[u8]) -> (r: i8)
    ensures
        r == 0 <==> a@ == b@,
        r < 0 <==> bytes_lt(a@, b@),
        r > 0 <==> bytes_lt(b@, a@),
{
    let mut i: usize = 0;
    while i < a.len() && i < b.len()
        invariant
            0 <= i <= a.len(),
            i <= b.len(),
            forall|k: int| 0 <= k < i ==> a@[k] == b@[k],
        decreases a.len() - i,
    {
        if a[i] != b[i] {
            if a[i] < b[i] {
                assert(below_at(a@, b@, i as int));
                proof {
                    lemma_no_cycle(a@, b@);
                }
                return -1;
            } else {
                assert(below_at(b@, a@, i as int));
                proof {
                    lemma_no_cycle(b@, a@);
                }
                return 1;
            }
        }
        i = i + 1;
    }
    if a.len() < b.len() {
        assert(below_at(a@, b@, i as int));
        proof {
            lemma_no_cycle(a@, b@);
        }
        -1
    } else if b.len() < a.len() {
        assert(below_at(b@, a@, i as int));
        proof {
            lemma_no_cycle(b@, a@);
        }
        1
    } else {
        assert(a@ =~= b@);
        0
    }
}

proof fn lemma_no_cycle(a: Seq<u8>, b: Seq<u8>)
    requires
        bytes_lt(a, b),
    ensures
        !bytes_lt(b, a),
        a != b,
{
    if bytes_lt(b, a) {
        lemma_bytes_lt_transitive(a, b, a);
    }
}

} // verus!
