//! Where a byte sequence stands inside another.

use vstd::prelude::*;

verus! {

/// `x` stands in `b` from position `p` on.
pub open spec fn occurs_at(b: Seq<u8>, p: int, x: Seq<u8>) -> bool {
    0 <= p && p + x.len() <= b.len() && b.subrange(p, p + x.len()) == x
}

/// Splitting what stands at `p` in two.
pub proof fn lemma_occurs_at_concat(b: Seq<u8>, p: int, x: Seq<u8>, y: Seq<u8>)
    requires
        occurs_at(b, p, x + y),
    ensures
        occurs_at(b, p, x),
        occurs_at(b, p + x.len(), y),
{
    let s = b.subrange(p, p + x.len() + y.len());
    assert(s == x + y);
    assert forall|i: int| 0 <= i < x.len() implies b.subrange(p, p + x.len())[i] == x[i] by {
        assert(s[i] == (x + y)[i]);
    }
    assert(b.subrange(p, p + x.len()) =~= x);
    assert forall|i: int| 0 <= i < y.len() implies b.subrange(
        p + x.len(),
        p + x.len() + y.len(),
    )[i] == y[i] by {
        assert(s[x.len() + i] == (x + y)[x.len() + i]);
    }
    assert(b.subrange(p + x.len(), p + x.len() + y.len()) =~= y);
}

/// A whole sequence stands at its start.
pub proof fn lemma_occurs_whole(b: Seq<u8>)
    ensures
        occurs_at(b, 0, b),
{
    assert(b.subrange(0, b.len() as int) =~= b);
}

} // verus!
