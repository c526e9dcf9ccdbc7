//! The subsequence relation, used to state that a forwarding path keeps the
//! broker's delivery order: it may lose items, never reorder or duplicate
//! them.

use vstd::prelude::*;

verus! {

/// Holds when `a` can be obtained from `b` by deleting elements: the
/// elements of `a` occur in `b`, in the same order.
pub open spec fn is_subseq_of<T>(a: Seq<T>, b: Seq<T>) -> bool
    decreases b.len(),
{
    if a.len() == 0 {
        true
    } else if b.len() == 0 {
        false
    } else if a.first() == b.first() {
        is_subseq_of(a.drop_first(), b.drop_first())
    } else {
        is_subseq_of(a, b.drop_first())
    }
}

/// Appending to the right-hand side preserves the relation.
pub proof fn lemma_subseq_push_right<T>(a: Seq<T>, b: Seq<T>, x: T)
    requires
        is_subseq_of(a, b),
    ensures
        is_subseq_of(a, b.push(x)),
    decreases b.len(),
{
    if a.len() == 0 {
    } else {
        assert(b.len() > 0);
        assert(b.push(x).first() == b.first());
        assert(b.push(x).drop_first() =~= b.drop_first().push(x));
        if a.first() == b.first() {
            lemma_subseq_push_right(a.drop_first(), b.drop_first(), x);
        } else {
            lemma_subseq_push_right(a, b.drop_first(), x);
        }
    }
}

/// A single element is a subsequence of anything it was appended to.
pub proof fn lemma_subseq_single<T>(b: Seq<T>, x: T)
    ensures
        is_subseq_of(seq![x], b.push(x)),
    decreases b.len(),
{
    let a = seq![x];
    assert(a.first() == x);
    if b.len() == 0 {
        assert(b.push(x).first() == x);
        assert(a.drop_first() =~= Seq::<T>::empty());
        assert(b.push(x).drop_first() =~= Seq::<T>::empty());
        assert(is_subseq_of(a.drop_first(), b.push(x).drop_first()));
        assert(is_subseq_of(a, b.push(x)));
    } else {
        assert(b.push(x).first() == b.first());
        assert(b.push(x).drop_first() =~= b.drop_first().push(x));
        if x == b.first() {
            assert(a.drop_first() =~= Seq::<T>::empty());
            assert(is_subseq_of(a.drop_first(), b.push(x).drop_first()));
            assert(is_subseq_of(a, b.push(x)));
        } else {
            lemma_subseq_single(b.drop_first(), x);
            assert(is_subseq_of(a, b.push(x).drop_first()));
            assert(is_subseq_of(a, b.push(x)));
        }
    }
}

/// Appending the same element to both sides preserves the relation.
pub proof fn lemma_subseq_push_both<T>(a: Seq<T>, b: Seq<T>, x: T)
    requires
        is_subseq_of(a, b),
    ensures
        is_subseq_of(a.push(x), b.push(x)),
    decreases b.len(),
{
    if a.len() == 0 {
        assert(a.push(x) =~= seq![x]);
        lemma_subseq_single(b, x);
    } else {
        assert(b.len() > 0);
        assert(a.push(x).first() == a.first());
        assert(b.push(x).first() == b.first());
        assert(a.push(x).drop_first() =~= a.drop_first().push(x));
        assert(b.push(x).drop_first() =~= b.drop_first().push(x));
        if a.first() == b.first() {
            lemma_subseq_push_both(a.drop_first(), b.drop_first(), x);
        } else {
            lemma_subseq_push_both(a, b.drop_first(), x);
        }
    }
}

/// Every prefix, read as the left part of a concatenation, is a subsequence.
pub proof fn lemma_prefix_subseq<T>(a: Seq<T>, b: Seq<T>)
    ensures
        is_subseq_of(a, a + b),
    decreases a.len(),
{
    if a.len() == 0 {
    } else {
        assert((a + b).len() > 0);
        assert((a + b).first() == a.first());
        assert((a + b).drop_first() =~= a.drop_first() + b);
        lemma_prefix_subseq(a.drop_first(), b);
    }
}

/// Dropping the head of the left-hand side preserves the relation.
proof fn lemma_subseq_drop_left<T>(a: Seq<T>, b: Seq<T>)
    requires
        a.len() > 0,
        is_subseq_of(a, b),
    ensures
        is_subseq_of(a.drop_first(), b),
    decreases b.len(), 1nat,
{
    assert(b.len() > 0);
    if a.first() == b.first() {
        lemma_subseq_grow_right(a.drop_first(), b);
    } else {
        lemma_subseq_drop_left(a, b.drop_first());
        lemma_subseq_grow_right(a.drop_first(), b);
    }
}

/// What is a subsequence of the tail is a subsequence of the whole.
proof fn lemma_subseq_grow_right<T>(a: Seq<T>, b: Seq<T>)
    requires
        b.len() > 0,
        is_subseq_of(a, b.drop_first()),
    ensures
        is_subseq_of(a, b),
    decreases b.len(), 0nat,
{
    if a.len() == 0 {
    } else if a.first() == b.first() {
        lemma_subseq_drop_left(a, b.drop_first());
    } else {
    }
}

/// The subsequence relation is transitive.
pub proof fn lemma_subseq_trans<T>(a: Seq<T>, b: Seq<T>, c: Seq<T>)
    requires
        is_subseq_of(a, b),
        is_subseq_of(b, c),
    ensures
        is_subseq_of(a, c),
    decreases c.len(),
{
    if a.len() == 0 {
    } else {
        assert(b.len() > 0);
        assert(c.len() > 0);
        if b.first() == c.first() {
            if a.first() == b.first() {
                lemma_subseq_trans(a.drop_first(), b.drop_first(), c.drop_first());
            } else {
                lemma_subseq_trans(a, b.drop_first(), c.drop_first());
            }
        } else {
            lemma_subseq_trans(a, b, c.drop_first());
            if a.first() == c.first() {
                lemma_subseq_drop_left(a, c.drop_first());
            }
        }
        assert(is_subseq_of(a, c));
    }
}

} // verus!
