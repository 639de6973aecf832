//! Keeping the items of a sequence that a mask selects, in order.
use vstd::prelude::*;

verus! {

/// The items of `items` whose flag in `keep` is set, in their input order.
pub open spec fn masked<T>(items: Seq<T>, keep: Seq<bool>) -> Seq<T>
    decreases items.len(),
{
    if items.len() == 0 || keep.len() == 0 {
        Seq::empty()
    } else {
        let rest = masked(items.drop_last(), keep.drop_last());
        if keep.last() {
            rest.push(items.last())
        } else {
            rest
        }
    }
}

/// A masked sequence is no longer than its input.
pub proof fn lemma_masked_len<T>(items: Seq<T>, keep: Seq<bool>)
    ensures
        masked(items, keep).len() <= items.len(),
    decreases items.len(),
{
    if items.len() > 0 && keep.len() > 0 {
        lemma_masked_len(items.drop_last(), keep.drop_last());
    }
}

/// Two sequences of the same length masked alike keep the same number of
/// items.
pub proof fn lemma_masked_len_same<A, B>(x: Seq<A>, y: Seq<B>, keep: Seq<bool>)
    requires
        x.len() == y.len(),
    ensures
        masked(x, keep).len() == masked(y, keep).len(),
    decreases x.len(),
{
    if x.len() > 0 && keep.len() > 0 {
        lemma_masked_len_same(x.drop_last(), y.drop_last(), keep.drop_last());
    }
}

/// Every kept item is an input item whose flag is set.
pub proof fn lemma_masked_members<T>(items: Seq<T>, keep: Seq<bool>, x: T)
    requires
        items.len() == keep.len(),
        masked(items, keep).contains(x),
    ensures
        exists|i: int| 0 <= i < items.len() && keep[i] && items[i] == x,
    decreases items.len(),
{
    let rest = masked(items.drop_last(), keep.drop_last());
    if keep.last() && x == items.last() {
        assert(keep[items.len() - 1] && items[items.len() - 1] == x);
    } else {
        if keep.last() {
            let j = choose|j: int| 0 <= j < masked(items, keep).len() && masked(items, keep)[j] == x;
            assert(rest[j] == x);
        }
        lemma_masked_members(items.drop_last(), keep.drop_last(), x);
        let i = choose|i: int| 0 <= i < items.len() - 1 && keep.drop_last()[i] && items.drop_last()[i] == x;
        assert(keep[i] && items[i] == x);
    }
}

/// `items` without those whose flag in `keep` is clear (`Vec::retain` with a
/// precomputed predicate).
pub fn retain_by_mask<T>(items: Vec<T>, keep: &Vec<bool>) -> (r: Vec<T>)
    requires
        items@.len() == keep@.len(),
    ensures
        r@ == masked(items@, keep@),
{
    let ghost items0 = items@;
    let n = items.len();
    let mut items = items;
    let mut out: Vec<T> = Vec::new();
    let mut k: usize = 0;
    while k < n
        invariant
            n == items0.len(),
            n == keep@.len(),
            k <= n,
            items@ == items0.skip(k as int),
            out@ == masked(items0.take(k as int), keep@.take(k as int)),
        decreases n - k,
    {
        assert(items0.skip(k as int)[0] == items0[k as int]);
        let item = items.remove(0);
        if keep[k] {
            out.push(item);
        }
        k = k + 1;
        proof {
            assert(items0.take(k as int).drop_last() =~= items0.take(k - 1));
            assert(keep@.take(k as int).drop_last() =~= keep@.take(k - 1));
            assert(items@ =~= items0.skip(k as int));
        }
    }
    assert(items0.take(n as int) =~= items0);
    assert(keep@.take(n as int) =~= keep@);
    out
}

/// The positions `0..n`, in order.
pub open spec fn positions(n: nat) -> Seq<usize> {
    Seq::new(n, |i: int| i as usize)
}

/// The positions whose flag in `keep` is set, in order.
pub fn selected_positions(keep: &Vec<bool>) -> (r: Vec<usize>)
    ensures
        r@ == masked(positions(keep@.len()), keep@),
{
    let mut out: Vec<usize> = Vec::new();
    let mut k: usize = 0;
    while k < keep.len()
        invariant
            k <= keep@.len(),
            out@ == masked(positions(k as nat), keep@.take(k as int)),
        decreases keep.len() - k,
    {
        if keep[k] {
            out.push(k);
        }
        k = k + 1;
        proof {
            assert(positions(k as nat).drop_last() =~= positions((k - 1) as nat));
            assert(keep@.take(k as int).drop_last() =~= keep@.take(k - 1));
        }
    }
    assert(keep@.take(k as int) =~= keep@);
    out
}

/// The items in reverse order (`Vec::reverse`).
pub fn reverse_vec<T>(v: Vec<T>) -> (r: Vec<T>)
    ensures
        r@ == v@.reverse(),
{
    let ghost v0 = v@;
    let mut v = v;
    let mut out: Vec<T> = Vec::new();
    while v.len() > 0
        invariant
            v0.len() == v@.len() + out@.len(),
            v@ == v0.take(v@.len() as int),
            out@ == v0.reverse().take(out@.len() as int),
        decreases v@.len(),
    {
        let ghost n = v@.len();
        let x = v.pop().unwrap();
        out.push(x);
        proof {
            assert(v@ =~= v0.take(v@.len() as int));
            assert(out@ =~= v0.reverse().take(out@.len() as int));
        }
    }
    assert(out@ =~= v0.reverse());
    out
}

} // verus!
