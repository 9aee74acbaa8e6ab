use crate::ring::{after_pop, after_push, popped, silence};
use vstd::prelude::*;

verus! {

/// Samples pushed into an empty ring that has room for all of them come out
/// of as many pops in the order they went in, and leave the ring empty.
pub proof fn lemma_fifo(s: Seq<u32>, cap: nat)
    requires
        s.len() <= cap,
    ensures
        popped(after_push(Seq::empty(), cap, s), s.len()) == s,
        after_pop(after_push(Seq::empty(), cap, s), s.len()) == Seq::<u32>::empty(),
{
    let q = after_push(Seq::empty(), cap, s);
    assert(q =~= s);
    assert(q.take(s.len() as int) =~= s);
    assert(q.skip(s.len() as int) =~= Seq::<u32>::empty());
}

/// A full ring rejects every further sample until a pop frees a slot, after
/// which the next sample is taken.
pub proof fn lemma_full_rejects(q: Seq<u32>, cap: nat, t: Seq<u32>, x: u32)
    requires
        q.len() == cap,
        cap > 0,
    ensures
        after_push(q, cap, t) == q,
        after_push(after_pop(q, 1), cap, seq![x]) == after_pop(q, 1).push(x),
{
    assert(q + t.take(0) =~= q);
    assert(after_pop(q, 1) + seq![x] =~= after_pop(q, 1).push(x));
}

/// Pops beyond what the ring holds hand out silence: the output has one
/// sample per pop, the held samples first, then zeros, and the ring is empty.
pub proof fn lemma_underrun(q: Seq<u32>, n: nat)
    requires
        n > q.len(),
    ensures
        popped(q, n).len() == n,
        popped(q, n).take(q.len() as int) == q,
        forall|i: int| q.len() <= i < n ==> popped(q, n)[i] == 0,
        after_pop(q, n) == Seq::<u32>::empty(),
{
    assert(popped(q, n).take(q.len() as int) =~= q);
    assert forall|i: int| q.len() <= i < n implies popped(q, n)[i] == 0 by {
        assert(popped(q, n)[i] == silence((n - q.len()) as nat)[i - q.len()]);
    }
}

/// Samples offered beyond the ring's room are dropped: the ring ends full,
/// holding what it held and then the earliest samples that fitted.
pub proof fn lemma_overflow(q: Seq<u32>, cap: nat, s: Seq<u32>)
    requires
        q.len() <= cap,
        q.len() + s.len() > cap,
    ensures
        after_push(q, cap, s).len() == cap,
        after_push(q, cap, s) == q + s.take(cap - q.len()),
        after_push(q, cap, s).take(q.len() as int) == q,
{
    assert((q + s.take(cap - q.len())).take(q.len() as int) =~= q);
}

} // verus!
